//! Colours, each tagged with the fidelity it needs.

use crate::profile::TermProfile;
use vstd::prelude::*;

verus! {

/// A colour by its red, green and blue parts.
#[derive(Debug, Clone, Copy, PartialEq, Eq, Structural, Hash)]
pub struct Rgb {
    /// The red part.
    pub red: u8,
    /// The green part.
    pub green: u8,
    /// The blue part.
    pub blue: u8,
}

/// One of the sixteen named colours, in the order of their palette indices.
#[derive(Debug, Clone, Copy, PartialEq, Eq, Structural, Hash)]
pub enum AnsiColor {
    /// Index 0.
    Black,
    /// Index 1.
    Red,
    /// Index 2.
    Green,
    /// Index 3.
    Yellow,
    /// Index 4.
    Blue,
    /// Index 5.
    Magenta,
    /// Index 6.
    Cyan,
    /// Index 7.
    White,
    /// Index 8.
    BrightBlack,
    /// Index 9.
    BrightRed,
    /// Index 10.
    BrightGreen,
    /// Index 11.
    BrightYellow,
    /// Index 12.
    BrightBlue,
    /// Index 13.
    BrightMagenta,
    /// Index 14.
    BrightCyan,
    /// Index 15.
    BrightWhite,
}

impl AnsiColor {
    /// The named colour with the palette index `index`, which is below 16.
    pub open spec fn at(index: int) -> AnsiColor
        recommends
            0 <= index < 16,
    {
        if index == 0 {
            AnsiColor::Black
        } else if index == 1 {
            AnsiColor::Red
        } else if index == 2 {
            AnsiColor::Green
        } else if index == 3 {
            AnsiColor::Yellow
        } else if index == 4 {
            AnsiColor::Blue
        } else if index == 5 {
            AnsiColor::Magenta
        } else if index == 6 {
            AnsiColor::Cyan
        } else if index == 7 {
            AnsiColor::White
        } else if index == 8 {
            AnsiColor::BrightBlack
        } else if index == 9 {
            AnsiColor::BrightRed
        } else if index == 10 {
            AnsiColor::BrightGreen
        } else if index == 11 {
            AnsiColor::BrightYellow
        } else if index == 12 {
            AnsiColor::BrightBlue
        } else if index == 13 {
            AnsiColor::BrightMagenta
        } else if index == 14 {
            AnsiColor::BrightCyan
        } else {
            AnsiColor::BrightWhite
        }
    }

    /// The named colour with the palette index `index`; none from 16 on.
    pub fn from_index(index: u8) -> (r: Option<AnsiColor>)
        ensures
            index < 16 ==> r == Some(AnsiColor::at(index as int)),
            index >= 16 ==> r is None,
    {
        match index {
            0 => Some(AnsiColor::Black),
            1 => Some(AnsiColor::Red),
            2 => Some(AnsiColor::Green),
            3 => Some(AnsiColor::Yellow),
            4 => Some(AnsiColor::Blue),
            5 => Some(AnsiColor::Magenta),
            6 => Some(AnsiColor::Cyan),
            7 => Some(AnsiColor::White),
            8 => Some(AnsiColor::BrightBlack),
            9 => Some(AnsiColor::BrightRed),
            10 => Some(AnsiColor::BrightGreen),
            11 => Some(AnsiColor::BrightYellow),
            12 => Some(AnsiColor::BrightBlue),
            13 => Some(AnsiColor::BrightMagenta),
            14 => Some(AnsiColor::BrightCyan),
            15 => Some(AnsiColor::BrightWhite),
            _ => None,
        }
    }
}

/// A colour of one of three kinds. The kind says what fidelity the colour
/// needs; nothing is converted behind the caller's back.
#[derive(Debug, Clone, Copy, PartialEq, Eq, Structural, Hash)]
pub enum Color {
    /// One of the sixteen named colours.
    Ansi(AnsiColor),
    /// An index into the 256-colour palette.
    Ansi256(u8),
    /// Any colour, by its parts.
    Rgb(Rgb),
}

impl Color {
    /// The least profile that can show the colour as it is.
    pub open spec fn fidelity(self) -> TermProfile {
        match self {
            Color::Ansi(_) => TermProfile::Ansi16,
            Color::Ansi256(_) => TermProfile::Ansi256,
            Color::Rgb(_) => TermProfile::TrueColor,
        }
    }
}

} // verus!
