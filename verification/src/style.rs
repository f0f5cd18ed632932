//! Colours, text modifiers and styles of a rendered cell.

use vstd::prelude::*;
use vstd::std_specs::convert::FromSpecImpl;

verus! {

/// A colour: the terminal's default, one of the sixteen named colours, a
/// colour given by its four channels, or one given by its index in a
/// palette.
#[derive(Clone, Copy, Debug, PartialEq, Eq, Structural)]
pub enum Color {
    Reset,
    Black,
    Red,
    Green,
    Yellow,
    Blue,
    Magenta,
    Cyan,
    Gray,
    DarkGray,
    LightRed,
    LightGreen,
    LightYellow,
    LightBlue,
    LightMagenta,
    LightCyan,
    White,
    Rgba(u8, u8, u8, u8),
    Indexed(u8),
}

/// The palette index of a colour: 0 to 15 for the named colours in their
/// order, the index itself for an indexed colour, and 0 for the default and
/// for a colour given by its channels.
pub open spec fn color_index(c: Color) -> u8 {
    match c {
        Color::Reset => 0,
        Color::Black => 0,
        Color::Red => 1,
        Color::Green => 2,
        Color::Yellow => 3,
        Color::Blue => 4,
        Color::Magenta => 5,
        Color::Cyan => 6,
        Color::Gray => 7,
        Color::DarkGray => 8,
        Color::LightRed => 9,
        Color::LightGreen => 10,
        Color::LightYellow => 11,
        Color::LightBlue => 12,
        Color::LightMagenta => 13,
        Color::LightCyan => 14,
        Color::White => 15,
        Color::Rgba(_, _, _, _) => 0,
        Color::Indexed(i) => i,
    }
}

impl From<Color> for u8 {
    /// The palette index of a colour.
    fn from(c: Color) -> (idx: u8) {
        match c {
            Color::Reset => 0,
            Color::Black => 0,
            Color::Red => 1,
            Color::Green => 2,
            Color::Yellow => 3,
            Color::Blue => 4,
            Color::Magenta => 5,
            Color::Cyan => 6,
            Color::Gray => 7,
            Color::DarkGray => 8,
            Color::LightRed => 9,
            Color::LightGreen => 10,
            Color::LightYellow => 11,
            Color::LightBlue => 12,
            Color::LightMagenta => 13,
            Color::LightCyan => 14,
            Color::White => 15,
            Color::Rgba(_, _, _, _) => 0,
            Color::Indexed(i) => i,
        }
    }
}

impl FromSpecImpl<Color> for u8 {
    open spec fn obeys_from_spec() -> bool {
        true
    }

    open spec fn from_spec(c: Color) -> u8 {
        color_index(c)
    }
}

/// A set of text modifiers, one bit each.
#[derive(Clone, Copy, Debug, PartialEq, Eq, Structural)]
pub struct Modifier {
    pub bits: u16,
}

/// Bit of the modifier bold.
pub const BOLD: u16 = 0x0001;

/// Bit of the modifier dim.
pub const DIM: u16 = 0x0002;

/// Bit of the modifier italic.
pub const ITALIC: u16 = 0x0004;

/// Bit of the modifier underlined.
pub const UNDERLINED: u16 = 0x0008;

/// Bit of the modifier slow blink.
pub const SLOW_BLINK: u16 = 0x0010;

/// Bit of the modifier rapid blink.
pub const RAPID_BLINK: u16 = 0x0020;

/// Bit of the modifier reversed.
pub const REVERSED: u16 = 0x0040;

/// Bit of the modifier hidden.
pub const HIDDEN: u16 = 0x0080;

/// Bit of the modifier crossed out.
pub const CROSSED_OUT: u16 = 0x0100;

impl Modifier {
    /// The set with the modifiers of both.
    pub open spec fn with(self, other: Modifier) -> Modifier {
        Modifier { bits: self.bits | other.bits }
    }

    /// The set without the modifiers of `other`.
    pub open spec fn without(self, other: Modifier) -> Modifier {
        Modifier { bits: self.bits & !other.bits }
    }

    /// Whether every modifier of `other` is in the set.
    pub open spec fn has(self, other: Modifier) -> bool {
        self.bits & other.bits == other.bits
    }

    /// The empty set.
    pub fn empty() -> (m: Modifier)
        ensures
            m.bits == 0,
    {
        Modifier { bits: 0 }
    }

    /// The set of the modifiers whose bits are given.
    pub fn from_bits(bits: u16) -> (m: Modifier)
        ensures
            m.bits == bits,
    {
        Modifier { bits }
    }

    /// Whether the set is empty.
    pub fn is_empty(&self) -> (none: bool)
        ensures
            none == (self.bits == 0),
    {
        self.bits == 0
    }

    /// Whether every modifier of `other` is in the set.
    pub fn contains(&self, other: Modifier) -> (all: bool)
        ensures
            all == self.has(other),
    {
        self.bits & other.bits == other.bits
    }

    /// Adds the modifiers of `other` to the set.
    pub fn insert(&mut self, other: Modifier)
        ensures
            *final(self) == old(self).with(other),
            final(self).has(other),
    {
        let before = self.bits;
        let add = other.bits;
        assert((before | add) & add == add) by (bit_vector);
        self.bits = before | add;
    }

    /// Takes the modifiers of `other` out of the set.
    pub fn remove(&mut self, other: Modifier)
        ensures
            *final(self) == old(self).without(other),
            final(self).bits & other.bits == 0,
    {
        let before = self.bits;
        let sub = other.bits;
        assert((before & !sub) & sub == 0) by (bit_vector);
        self.bits = before & !sub;
    }
}

/// A change of style: colours to set, where one is given, and modifiers to
/// add and to take away.
#[derive(Clone, Copy, Debug, PartialEq, Eq, Structural)]
pub struct Style {
    pub fg: Option<Color>,
    pub bg: Option<Color>,
    pub add_modifier: Modifier,
    pub sub_modifier: Modifier,
}

impl Style {
    /// The style that changes nothing.
    pub open spec fn plain() -> Style {
        Style {
            fg: None,
            bg: None,
            add_modifier: Modifier { bits: 0 },
            sub_modifier: Modifier { bits: 0 },
        }
    }

    /// The style that changes nothing.
    pub fn new() -> (s: Style)
        ensures
            s == Style::plain(),
    {
        Style {
            fg: None,
            bg: None,
            add_modifier: Modifier::empty(),
            sub_modifier: Modifier::empty(),
        }
    }

    /// The style with the foreground colour set.
    pub fn fg(self, color: Color) -> (s: Style)
        ensures
            s == (Style { fg: Some(color), ..self }),
    {
        Style { fg: Some(color), bg: self.bg, add_modifier: self.add_modifier, sub_modifier: self.sub_modifier }
    }

    /// The style with the background colour set.
    pub fn bg(self, color: Color) -> (s: Style)
        ensures
            s == (Style { bg: Some(color), ..self }),
    {
        Style { fg: self.fg, bg: Some(color), add_modifier: self.add_modifier, sub_modifier: self.sub_modifier }
    }

    /// The style that also adds the given modifiers, and no longer takes
    /// them away.
    pub fn add_modifier(self, modifier: Modifier) -> (s: Style)
        ensures
            s == (Style {
                add_modifier: self.add_modifier.with(modifier),
                sub_modifier: self.sub_modifier.without(modifier),
                ..self
            }),
    {
        let mut sub = self.sub_modifier;
        sub.remove(modifier);
        let mut add = self.add_modifier;
        add.insert(modifier);
        Style { fg: self.fg, bg: self.bg, add_modifier: add, sub_modifier: sub }
    }

    /// The style that also takes the given modifiers away, and no longer
    /// adds them.
    pub fn remove_modifier(self, modifier: Modifier) -> (s: Style)
        ensures
            s == (Style {
                add_modifier: self.add_modifier.without(modifier),
                sub_modifier: self.sub_modifier.with(modifier),
                ..self
            }),
    {
        let mut add = self.add_modifier;
        add.remove(modifier);
        let mut sub = self.sub_modifier;
        sub.insert(modifier);
        Style { fg: self.fg, bg: self.bg, add_modifier: add, sub_modifier: sub }
    }
}

impl Default for Style {
    fn default() -> (s: Style)
        ensures
            s == Style::plain(),
    {
        Style::new()
    }
}

} // verus!
