use taur::style::Palette;

#[test]
fn terminal_styles_are_the_control_sequences() {
    let p = Palette::terminal();
    assert_eq!(p.bold, "\u{1b}[1m");
    assert_eq!(p.reset, "\u{1b}[m");
    assert_eq!(p.default_colour, "\u{1b}[39m");
}

#[test]
fn terminal_colours_are_the_control_sequences_or_nothing() {
    let p = Palette::terminal();
    assert!(p.blue == "\u{1b}[38;5;4m" || p.blue.is_empty());
    assert!(p.magenta == "\u{1b}[38;5;5m" || p.magenta.is_empty());
    assert!(p.cyan == "\u{1b}[38;5;6m" || p.cyan.is_empty());
}

#[test]
fn terminal_palette_is_what_termion_writes() {
    let p = Palette::terminal();
    assert_eq!(p.bold, format!("{}", termion::style::Bold));
    assert_eq!(p.reset, format!("{}", termion::style::Reset));
    assert_eq!(p.blue, format!("{}", termion::color::Fg(termion::color::Blue)));
    assert_eq!(p.magenta, format!("{}", termion::color::Fg(termion::color::Magenta)));
    assert_eq!(p.cyan, format!("{}", termion::color::Fg(termion::color::Cyan)));
    assert_eq!(p.default_colour, format!("{}", termion::color::Fg(termion::color::Reset)));
}
