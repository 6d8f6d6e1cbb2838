//! Escape sequences that style the text written to a terminal.
//!
//! The sequences themselves come from `termion`; the rest of the library
//! only ever sees them as the strings of a [`Palette`].

use vstd::prelude::*;

verus! {

/// A control sequence: the introducer `ESC [` followed by `tail`.
pub open spec fn csi(tail: Seq<char>) -> Seq<char> {
    seq!['\u{1b}', '['] + tail
}

/// `s` is `full`, or nothing at all where colours are switched off.
pub open spec fn colour_or_nothing(s: Seq<char>, full: Seq<char>) -> bool {
    s.len() == 0 || s == full
}

/// What `termion::style::Bold` writes: always `ESC [ 1 m`.
#[verifier::external_body]
fn style_bold() -> (s: String)
    ensures
        s@ == csi("1m"@),
{
    format!("{}", termion::style::Bold)
}

/// What `termion::style::Reset` writes: always `ESC [ m`.
#[verifier::external_body]
fn style_reset() -> (s: String)
    ensures
        s@ == csi("m"@),
{
    format!("{}", termion::style::Reset)
}

/// What `termion::color::Fg(termion::color::Blue)` writes: `ESC [ 38;5;4 m`,
/// or nothing when the process runs with `NO_COLOR` set.
#[verifier::external_body]
fn fg_blue() -> (s: String)
    ensures
        colour_or_nothing(s@, csi("38;5;4m"@)),
{
    format!("{}", termion::color::Fg(termion::color::Blue))
}

/// What `termion::color::Fg(termion::color::Magenta)` writes:
/// `ESC [ 38;5;5 m`, or nothing when the process runs with `NO_COLOR` set.
#[verifier::external_body]
fn fg_magenta() -> (s: String)
    ensures
        colour_or_nothing(s@, csi("38;5;5m"@)),
{
    format!("{}", termion::color::Fg(termion::color::Magenta))
}

/// What `termion::color::Fg(termion::color::Cyan)` writes: `ESC [ 38;5;6 m`,
/// or nothing when the process runs with `NO_COLOR` set.
#[verifier::external_body]
fn fg_cyan() -> (s: String)
    ensures
        colour_or_nothing(s@, csi("38;5;6m"@)),
{
    format!("{}", termion::color::Fg(termion::color::Cyan))
}

/// What `termion::color::Fg(termion::color::Reset)` writes: always
/// `ESC [ 39 m`, whatever the environment says about colours.
#[verifier::external_body]
fn fg_reset() -> (s: String)
    ensures
        s@ == csi("39m"@),
{
    format!("{}", termion::color::Fg(termion::color::Reset))
}

/// The sequences the renderers put around text. A field may hold any
/// string: the renderers place it, they do not interpret it.
#[derive(Debug, PartialEq, Eq)]
pub struct Palette {
    /// Starts bold text.
    pub bold: String,
    /// Ends every style and colour.
    pub reset: String,
    /// Starts blue text.
    pub blue: String,
    /// Starts magenta text.
    pub magenta: String,
    /// Starts cyan text.
    pub cyan: String,
    /// Goes back to the terminal's own text colour.
    pub default_colour: String,
}

/// A palette as the renderers' specifications see it.
pub struct PaletteView {
    pub bold: Seq<char>,
    pub reset: Seq<char>,
    pub blue: Seq<char>,
    pub magenta: Seq<char>,
    pub cyan: Seq<char>,
    pub default_colour: Seq<char>,
}

impl View for Palette {
    type V = PaletteView;

    open spec fn view(&self) -> PaletteView {
        PaletteView {
            bold: self.bold@,
            reset: self.reset@,
            blue: self.blue@,
            magenta: self.magenta@,
            cyan: self.cyan@,
            default_colour: self.default_colour@,
        }
    }
}

impl PaletteView {
    /// The palette of a terminal: the two styles and the colour reset are
    /// always there, each colour is there unless colours are switched off.
    pub open spec fn for_terminal(self) -> bool {
        &&& self.bold == csi("1m"@)
        &&& self.reset == csi("m"@)
        &&& colour_or_nothing(self.blue, csi("38;5;4m"@))
        &&& colour_or_nothing(self.magenta, csi("38;5;5m"@))
        &&& colour_or_nothing(self.cyan, csi("38;5;6m"@))
        &&& self.default_colour == csi("39m"@)
    }
}

impl Palette {
    /// The palette for text that goes to a terminal.
    pub fn terminal() -> (p: Palette)
        ensures
            p@.for_terminal(),
    {
        Palette {
            bold: style_bold(),
            reset: style_reset(),
            blue: fg_blue(),
            magenta: fg_magenta(),
            cyan: fg_cyan(),
            default_colour: fg_reset(),
        }
    }
}

} // verus!
