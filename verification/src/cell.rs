//! The cell: what a renderer draws at one position. It holds a symbol, a
//! foreground and a background colour and a set of modifiers; for textured
//! rendering it also keeps the history of what was drawn into it, so that
//! layers can be blended in their order.

use vstd::prelude::*;
use crate::style::{color_index, Color, Modifier, Style};
use crate::symbol::{cellinfo, symbol_index};

verus! {

/// What a textured renderer needs of a cell: the sheet index of its symbol,
/// the index of the texture, which the background colour carries, and the
/// foreground colour.
pub type CellInfo = (u8, u8, Color);

/// `String::clear` empties the string.
pub assume_specification[ String::clear ](s: &mut String)
    ensures
        final(s)@ == Seq::<char>::empty(),
;

/// `String::push` appends one character.
pub assume_specification[ String::push ](s: &mut String, ch: char)
    ensures
        final(s)@ == old(s)@.push(ch),
;

/// A cell as the contracts see it.
pub struct CellView {
    pub symbol: Seq<char>,
    pub fg: Color,
    pub bg: Color,
    pub modifier: Modifier,
    pub draw_history: Seq<CellInfo>,
}

impl CellView {
    /// The blank cell: a space in the default colours, no modifier, no
    /// history.
    pub open spec fn blank() -> CellView {
        CellView {
            symbol: seq![' '],
            fg: Color::Reset,
            bg: Color::Reset,
            modifier: Modifier { bits: 0 },
            draw_history: Seq::empty(),
        }
    }

    /// What a textured renderer needs of the cell.
    pub open spec fn info(self) -> CellInfo {
        (symbol_index(self.symbol), color_index(self.bg), self.fg)
    }

    /// The cell after a style was applied: each colour that the style gives
    /// replaces the cell's, the modifiers that it adds come in, and then
    /// those that it takes away go out.
    pub open spec fn styled(self, style: Style) -> CellView {
        CellView {
            fg: match style.fg {
                Some(c) => c,
                None => self.fg,
            },
            bg: match style.bg {
                Some(c) => c,
                None => self.bg,
            },
            modifier: self.modifier.with(style.add_modifier).without(style.sub_modifier),
            ..self
        }
    }

    /// The style that sets another cell's colours to this cell's and adds
    /// its modifiers.
    pub open spec fn style(self) -> Style {
        Style {
            fg: Some(self.fg),
            bg: Some(self.bg),
            add_modifier: self.modifier,
            sub_modifier: Modifier { bits: 0 },
        }
    }

    /// Whether the cell shows nothing: a space in the default colours.
    pub open spec fn is_blank(self) -> bool {
        self.symbol == seq![' '] && self.fg == Color::Reset && self.bg == Color::Reset
    }
}

/// A rendered cell.
#[derive(Clone, Debug, PartialEq)]
pub struct Cell {
    pub symbol: String,
    pub fg: Color,
    pub bg: Color,
    pub modifier: Modifier,
    pub draw_history: Vec<CellInfo>,
}

impl View for Cell {
    type V = CellView;

    open spec fn view(&self) -> CellView {
        CellView {
            symbol: self.symbol@,
            fg: self.fg,
            bg: self.bg,
            modifier: self.modifier,
            draw_history: self.draw_history@,
        }
    }
}

impl Cell {
    /// Replaces the symbol.
    pub fn set_symbol(&mut self, symbol: &str) -> (ret: &mut Cell)
        ensures
            ret@ == (CellView { symbol: symbol@, ..old(self)@ }),
            *final(self) == *final(ret),
    {
        self.symbol.clear();
        self.symbol.append(symbol);
        assert(self.symbol@ =~= symbol@);
        self
    }

    /// What a textured renderer needs of the cell: the sheet index of its
    /// symbol, the palette index of its background colour, and its
    /// foreground colour.
    pub fn get_cell_info(&self) -> (info: CellInfo)
        ensures
            info == self@.info(),
    {
        (cellinfo(&self.symbol), u8::from(self.bg), self.fg)
    }

    /// Replaces the symbol by one character.
    pub fn set_char(&mut self, ch: char) -> (ret: &mut Cell)
        ensures
            ret@ == (CellView { symbol: seq![ch], ..old(self)@ }),
            *final(self) == *final(ret),
    {
        self.symbol.clear();
        self.symbol.push(ch);
        assert(self.symbol@ =~= seq![ch]);
        self
    }

    /// Sets the foreground colour.
    pub fn set_fg(&mut self, color: Color) -> (ret: &mut Cell)
        ensures
            ret@ == (CellView { fg: color, ..old(self)@ }),
            *final(self) == *final(ret),
    {
        self.fg = color;
        self
    }

    /// Sets the background colour.
    pub fn set_bg(&mut self, color: Color) -> (ret: &mut Cell)
        ensures
            ret@ == (CellView { bg: color, ..old(self)@ }),
            *final(self) == *final(ret),
    {
        self.bg = color;
        self
    }

    /// Applies a style: the colours that it gives are set, the modifiers
    /// that it adds are added, and then those that it takes away are taken
    /// away.
    pub fn set_style(&mut self, style: Style) -> (ret: &mut Cell)
        ensures
            ret@ == old(self)@.styled(style),
            *final(self) == *final(ret),
    {
        if let Some(c) = style.fg {
            self.fg = c;
        }
        if let Some(c) = style.bg {
            self.bg = c;
        }
        self.modifier.insert(style.add_modifier);
        self.modifier.remove(style.sub_modifier);
        self
    }

    /// The style that gives another cell this cell's colours and modifiers.
    pub fn style(&self) -> (s: Style)
        ensures
            s == self@.style(),
    {
        let s = Style::default().fg(self.fg).bg(self.bg).add_modifier(self.modifier);
        proof {
            let m = self.modifier.bits;
            assert(0u16 | m == m) by (bit_vector);
            assert(0u16 & !m == 0u16) by (bit_vector);
        }
        s
    }

    /// Appends what is drawn now to the history of the cell.
    pub fn push_history(&mut self)
        ensures
            final(self)@ == (CellView {
                draw_history: old(self)@.draw_history.push(old(self)@.info()),
                ..old(self)@
            }),
    {
        let info = self.get_cell_info();
        self.draw_history.push(info);
    }

    /// Makes the cell blank: a space in the default colours, without
    /// modifiers and without history.
    pub fn reset(&mut self)
        ensures
            final(self)@ == CellView::blank(),
    {
        self.symbol.clear();
        self.symbol.push(' ');
        self.fg = Color::Reset;
        self.bg = Color::Reset;
        self.modifier = Modifier::empty();
        self.draw_history.clear();
        assert(self.symbol@ =~= seq![' ']);
    }

    /// Whether the cell shows nothing: its symbol is a space and both
    /// colours are the default.
    pub fn is_blank(&self) -> (blank: bool)
        ensures
            blank == self@.is_blank(),
    {
        let text = self.symbol.as_str();
        if text.unicode_len() != 1 {
            assert(self.symbol@.len() != seq![' '].len());
            return false;
        }
        let c = text.get_char(0);
        assert(c == ' ' ==> self.symbol@ =~= seq![' ']);
        assert(c != ' ' ==> self.symbol@[0] != seq![' '][0]);
        c == ' ' && self.fg == Color::Reset && self.bg == Color::Reset
    }
}

impl Default for Cell {
    /// The blank cell.
    fn default() -> (c: Cell)
        ensures
            c@ == CellView::blank(),
    {
        let mut symbol = String::new();
        symbol.push(' ');
        assert(symbol@ =~= seq![' ']);
        Cell {
            symbol,
            fg: Color::Reset,
            bg: Color::Reset,
            modifier: Modifier::empty(),
            draw_history: Vec::new(),
        }
    }
}

/// A cell that is reset is blank, whatever it held.
pub proof fn lemma_blank_is_blank()
    ensures
        CellView::blank().is_blank(),
        CellView::blank().info() == (32u8, 0u8, Color::Reset),
{
}

} // verus!
