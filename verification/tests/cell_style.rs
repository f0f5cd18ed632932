use pixel_tetris::cell::Cell;
use pixel_tetris::style::{Color, Modifier, Style, BOLD, CROSSED_OUT, ITALIC, UNDERLINED};

#[test]
fn default_cell_is_blank() {
    let c = Cell::default();
    assert_eq!(c.symbol, " ");
    assert_eq!(c.fg, Color::Reset);
    assert_eq!(c.bg, Color::Reset);
    assert_eq!(c.modifier, Modifier::empty());
    assert!(c.draw_history.is_empty());
    assert!(c.is_blank());
}

#[test]
fn set_symbol_replaces_the_symbol() {
    let mut c = Cell::default();
    c.set_symbol("xyz");
    assert_eq!(c.symbol, "xyz");
    c.set_symbol("q");
    assert_eq!(c.symbol, "q");
    c.set_symbol("");
    assert_eq!(c.symbol, "");
    assert_eq!(c.fg, Color::Reset);
}

#[test]
fn set_char_replaces_the_symbol() {
    let mut c = Cell::default();
    c.set_symbol("long text");
    c.set_char('k');
    assert_eq!(c.symbol, "k");
    c.set_char('\u{2203}');
    assert_eq!(c.symbol, "\u{2203}");
}

#[test]
fn setters_chain() {
    let mut c = Cell::default();
    c.set_char('a').set_fg(Color::Red).set_bg(Color::Indexed(7));
    assert_eq!(c.symbol, "a");
    assert_eq!(c.fg, Color::Red);
    assert_eq!(c.bg, Color::Indexed(7));
    assert!(!c.is_blank());
}

#[test]
fn cell_info_of_sheet_glyph() {
    let mut c = Cell::default();
    c.set_symbol("\u{2241}").set_fg(Color::Green).set_bg(Color::Indexed(3));
    assert_eq!(c.get_cell_info(), (65, 3, Color::Green));
}

#[test]
fn cell_info_of_letter() {
    let mut c = Cell::default();
    c.set_char('b').set_bg(Color::LightBlue).set_fg(Color::Rgba(1, 2, 3, 4));
    assert_eq!(c.get_cell_info(), (2, 12, Color::Rgba(1, 2, 3, 4)));
    assert_eq!(Cell::default().get_cell_info(), (32, 0, Color::Reset));
}

#[test]
fn color_palette_index() {
    assert_eq!(u8::from(Color::Reset), 0);
    assert_eq!(u8::from(Color::Black), 0);
    assert_eq!(u8::from(Color::Red), 1);
    assert_eq!(u8::from(Color::Green), 2);
    assert_eq!(u8::from(Color::Yellow), 3);
    assert_eq!(u8::from(Color::Blue), 4);
    assert_eq!(u8::from(Color::Magenta), 5);
    assert_eq!(u8::from(Color::Cyan), 6);
    assert_eq!(u8::from(Color::Gray), 7);
    assert_eq!(u8::from(Color::DarkGray), 8);
    assert_eq!(u8::from(Color::LightRed), 9);
    assert_eq!(u8::from(Color::LightGreen), 10);
    assert_eq!(u8::from(Color::LightYellow), 11);
    assert_eq!(u8::from(Color::LightBlue), 12);
    assert_eq!(u8::from(Color::LightMagenta), 13);
    assert_eq!(u8::from(Color::LightCyan), 14);
    assert_eq!(u8::from(Color::White), 15);
    assert_eq!(u8::from(Color::Indexed(200)), 200);
    assert_eq!(u8::from(Color::Rgba(9, 9, 9, 9)), 0);
}

#[test]
fn modifier_insert_remove_contains() {
    let mut m = Modifier::empty();
    assert!(m.is_empty());
    m.insert(Modifier::from_bits(BOLD | ITALIC));
    assert_eq!(m.bits, 0x0005);
    assert!(m.contains(Modifier::from_bits(BOLD)));
    assert!(m.contains(Modifier::from_bits(BOLD | ITALIC)));
    assert!(!m.contains(Modifier::from_bits(UNDERLINED)));
    m.remove(Modifier::from_bits(BOLD | UNDERLINED));
    assert_eq!(m.bits, ITALIC);
    m.remove(Modifier::from_bits(ITALIC));
    assert!(m.is_empty());
}

#[test]
fn set_style_sets_given_colours_only() {
    let mut c = Cell::default();
    c.set_fg(Color::Red).set_bg(Color::Blue);
    c.set_style(Style::default().fg(Color::Yellow));
    assert_eq!(c.fg, Color::Yellow);
    assert_eq!(c.bg, Color::Blue);
    c.set_style(Style::default().bg(Color::White));
    assert_eq!(c.fg, Color::Yellow);
    assert_eq!(c.bg, Color::White);
    c.set_style(Style::default());
    assert_eq!(c.fg, Color::Yellow);
    assert_eq!(c.bg, Color::White);
}

#[test]
fn set_style_adds_then_removes_modifiers() {
    let mut c = Cell::default();
    c.modifier = Modifier::from_bits(BOLD | CROSSED_OUT);
    let style = Style {
        fg: None,
        bg: None,
        add_modifier: Modifier::from_bits(ITALIC | UNDERLINED),
        sub_modifier: Modifier::from_bits(BOLD | UNDERLINED),
    };
    c.set_style(style);
    assert_eq!(c.modifier.bits, ITALIC | CROSSED_OUT);
}

#[test]
fn style_builders() {
    let s = Style::default();
    assert_eq!(s, Style::new());
    assert_eq!(s.fg, None);
    assert_eq!(s.bg, None);
    let s = s.add_modifier(Modifier::from_bits(BOLD)).remove_modifier(Modifier::from_bits(ITALIC));
    assert_eq!(s.add_modifier.bits, BOLD);
    assert_eq!(s.sub_modifier.bits, ITALIC);
    let s = s.add_modifier(Modifier::from_bits(ITALIC));
    assert_eq!(s.add_modifier.bits, BOLD | ITALIC);
    assert_eq!(s.sub_modifier.bits, 0);
    let s = s.remove_modifier(Modifier::from_bits(BOLD));
    assert_eq!(s.add_modifier.bits, ITALIC);
    assert_eq!(s.sub_modifier.bits, BOLD);
}

#[test]
fn style_of_cell_round_trips() {
    let mut c = Cell::default();
    c.set_fg(Color::Cyan).set_bg(Color::Magenta);
    c.modifier = Modifier::from_bits(BOLD | UNDERLINED);
    let s = c.style();
    assert_eq!(s.fg, Some(Color::Cyan));
    assert_eq!(s.bg, Some(Color::Magenta));
    assert_eq!(s.add_modifier.bits, BOLD | UNDERLINED);
    assert_eq!(s.sub_modifier.bits, 0);
    let mut d = Cell::default();
    d.set_style(s);
    assert_eq!(d.fg, c.fg);
    assert_eq!(d.bg, c.bg);
    assert_eq!(d.modifier, c.modifier);
}

#[test]
fn push_history_appends_cell_info() {
    let mut c = Cell::default();
    c.set_char('a').set_fg(Color::Red).set_bg(Color::Indexed(2));
    c.push_history();
    c.set_symbol("\u{22ff}").set_fg(Color::Blue);
    c.push_history();
    assert_eq!(c.draw_history, vec![(1, 2, Color::Red), (255, 2, Color::Blue)]);
    assert_eq!(c.symbol, "\u{22ff}");
}

#[test]
fn reset_makes_blank() {
    let mut c = Cell::default();
    c.set_symbol("zz").set_fg(Color::Red).set_bg(Color::Green);
    c.modifier = Modifier::from_bits(BOLD);
    c.push_history();
    c.reset();
    assert_eq!(c.symbol, " ");
    assert_eq!(c.fg, Color::Reset);
    assert_eq!(c.bg, Color::Reset);
    assert!(c.modifier.is_empty());
    assert!(c.draw_history.is_empty());
    assert!(c.is_blank());
}

#[test]
fn is_blank_cases() {
    let mut c = Cell::default();
    assert!(c.is_blank());
    c.modifier = Modifier::from_bits(BOLD);
    c.push_history();
    assert!(c.is_blank());
    c.set_fg(Color::Red);
    assert!(!c.is_blank());
    c.set_fg(Color::Reset).set_bg(Color::Black);
    assert!(!c.is_blank());
    c.set_bg(Color::Reset).set_symbol("  ");
    assert!(!c.is_blank());
    c.set_symbol("");
    assert!(!c.is_blank());
    c.set_symbol("a");
    assert!(!c.is_blank());
    c.set_symbol(" ");
    assert!(c.is_blank());
}

#[test]
fn clone_keeps_everything() {
    let mut c = Cell::default();
    c.set_symbol("w").set_fg(Color::White);
    c.push_history();
    let d = c.clone();
    assert_eq!(d.symbol, "w");
    assert_eq!(d.fg, Color::White);
    assert_eq!(d.draw_history, c.draw_history);
}
