//! Styles: up to three colours, and text attributes that go with them. The
//! attributes are a set of bits, one constant of this module for each.

use crate::color::Color;
use vstd::prelude::*;

verus! {

/// The attribute bold.
pub const BOLD: u16 = 0x001;

/// The attribute dimmed.
pub const DIMMED: u16 = 0x002;

/// The attribute italic.
pub const ITALIC: u16 = 0x004;

/// The attribute underlined.
pub const UNDERLINE: u16 = 0x008;

/// The attribute underlined twice.
pub const DOUBLE_UNDERLINE: u16 = 0x010;

/// The attribute underlined with a curly line.
pub const CURLY_UNDERLINE: u16 = 0x020;

/// The attribute underlined with a dotted line.
pub const DOTTED_UNDERLINE: u16 = 0x040;

/// The attribute underlined with a dashed line.
pub const DASHED_UNDERLINE: u16 = 0x080;

/// The attribute blinking.
pub const BLINK: u16 = 0x100;

/// The attribute inverted: foreground and background exchanged.
pub const INVERT: u16 = 0x200;

/// The attribute hidden.
pub const HIDDEN: u16 = 0x400;

/// The attribute struck through.
pub const STRIKETHROUGH: u16 = 0x800;

/// How text is to look: its colours and its attributes.
#[derive(Debug, Clone, Copy, PartialEq, Eq, Structural, Hash)]
pub struct Style {
    /// The foreground colour.
    pub fg: Option<Color>,
    /// The background colour.
    pub bg: Option<Color>,
    /// The colour of the underline.
    pub underline: Option<Color>,
    /// The text attributes, one bit for each.
    pub effects: u16,
}

impl Style {
    /// The style without colours and without attributes.
    pub fn new() -> (r: Style)
        ensures
            r == (Style { fg: None, bg: None, underline: None, effects: 0 }),
    {
        Style { fg: None, bg: None, underline: None, effects: 0 }
    }

    /// The foreground colour.
    pub fn get_fg_color(&self) -> (r: Option<Color>)
        ensures
            r == self.fg,
    {
        self.fg
    }

    /// The background colour.
    pub fn get_bg_color(&self) -> (r: Option<Color>)
        ensures
            r == self.bg,
    {
        self.bg
    }

    /// The colour of the underline.
    pub fn get_underline_color(&self) -> (r: Option<Color>)
        ensures
            r == self.underline,
    {
        self.underline
    }

    /// The style with `color` for its foreground colour.
    pub fn fg_color(self, color: Option<Color>) -> (r: Style)
        ensures
            r == (Style { fg: color, ..self }),
    {
        Style { fg: color, ..self }
    }

    /// The style with `color` for its background colour.
    pub fn bg_color(self, color: Option<Color>) -> (r: Style)
        ensures
            r == (Style { bg: color, ..self }),
    {
        Style { bg: color, ..self }
    }

    /// The style with `color` for the colour of its underline.
    pub fn underline_color(self, color: Option<Color>) -> (r: Style)
        ensures
            r == (Style { underline: color, ..self }),
    {
        Style { underline: color, ..self }
    }

    /// The style with `effects` for its attributes.
    pub fn effects(self, effects: u16) -> (r: Style)
        ensures
            r == (Style { effects, ..self }),
    {
        Style { effects, ..self }
    }

    /// The text attributes.
    pub fn get_effects(&self) -> (r: u16)
        ensures
            r == self.effects,
    {
        self.effects
    }
}

} // verus!
