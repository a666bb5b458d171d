//! The styling values of a radio group: colours, border sides, border line
//! styles and title alignments, as plain values. The renderer turns them into
//! the terminal toolkit's own types.

use vstd::prelude::*;

verus! {

/// A colour of the terminal.
#[derive(Clone, Copy, PartialEq, Eq, Debug, Structural)]
pub enum Color {
    /// The terminal's default colour.
    Reset,
    Black,
    Red,
    Green,
    Yellow,
    Blue,
    Magenta,
    Cyan,
    Gray,
    DarkGray,
    LightRed,
    LightGreen,
    LightYellow,
    LightBlue,
    LightMagenta,
    LightCyan,
    White,
    /// A colour given by its red, green and blue components.
    Rgb(u8, u8, u8),
    /// A colour of the terminal's palette, by its index.
    Indexed(u8),
}

/// The sides of a block that have a border.
#[derive(Clone, Copy, PartialEq, Eq, Debug, Structural)]
pub struct Borders {
    pub top: bool,
    pub right: bool,
    pub bottom: bool,
    pub left: bool,
}

impl Borders {
    /// A border on every side.
    pub fn all() -> (b: Borders)
        ensures
            b == (Borders { top: true, right: true, bottom: true, left: true }),
    {
        Borders { top: true, right: true, bottom: true, left: true }
    }

    /// No border.
    pub fn none() -> (b: Borders)
        ensures
            b == (Borders { top: false, right: false, bottom: false, left: false }),
    {
        Borders { top: false, right: false, bottom: false, left: false }
    }
}

/// The line style of a border.
#[derive(Clone, Copy, PartialEq, Eq, Debug, Structural)]
pub enum BorderType {
    Plain,
    Rounded,
    Double,
    Thick,
}

/// The horizontal alignment of a title.
#[derive(Clone, Copy, PartialEq, Eq, Debug, Structural)]
pub enum Alignment {
    Left,
    Center,
    Right,
}

/// A key press, `crossterm::event::KeyEvent`, which the radio group hands
/// back unchanged when it does not handle it.
#[verifier::external_type_specification]
#[verifier::external_body]
pub struct ExKeyEvent(tuirealm::event::KeyEvent);

} // verus!
