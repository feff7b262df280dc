//! The adapter: brings a colour or a style down to what a profile can show.

use crate::color::{AnsiColor, Color};
use crate::profile::TermProfile;
use crate::quantize::{ansi256_to_ansi, rgb_to_ansi256};
use crate::style::Style;
use vstd::prelude::*;

verus! {

/// What a profile makes of a colour. Below sixteen colours nothing is left
/// of it. A named colour stays as it is. A palette index stays where the
/// profile has 256 colours, and else becomes the named colour that stands for
/// it. A colour given by its parts stays under true colour, becomes its
/// palette index under 256 colours, and the named colour of that index under
/// sixteen.
pub open spec fn adapted(profile: TermProfile, color: Color) -> Option<Color> {
    if profile.rank() < TermProfile::Ansi16.rank() {
        None
    } else {
        match color {
            Color::Ansi(_) => Some(color),
            Color::Ansi256(index) => if profile.rank() >= TermProfile::Ansi256.rank() {
                Some(color)
            } else {
                Some(Color::Ansi(crate::quantize::named(index)))
            },
            Color::Rgb(rgb) => if profile == TermProfile::TrueColor {
                Some(color)
            } else if profile == TermProfile::Ansi256 {
                Some(Color::Ansi256(crate::quantize::quantized(rgb) as u8))
            } else {
                Some(Color::Ansi(crate::quantize::named(crate::quantize::quantized(rgb) as u8)))
            },
        }
    }
}

/// What a profile makes of a colour that may be missing.
pub open spec fn adapted_part(profile: TermProfile, color: Option<Color>) -> Option<Color> {
    match color {
        Some(c) => adapted(profile, c),
        None => None,
    }
}

/// What a profile makes of a style. Without a terminal nothing is left of
/// it: no colour and no attribute. Else each of its three colours is
/// adapted on its own, and the attributes stay as they are.
pub open spec fn adapted_style(profile: TermProfile, style: Style) -> Style {
    if profile == TermProfile::NoTty {
        Style { fg: None, bg: None, underline: None, effects: 0 }
    } else {
        Style {
            fg: adapted_part(profile, style.fg),
            bg: adapted_part(profile, style.bg),
            underline: adapted_part(profile, style.underline),
            effects: style.effects,
        }
    }
}

impl TermProfile {
    /// What the profile makes of `color`; `None` where it shows no colour.
    pub fn adapt_color(&self, color: Color) -> (r: Option<Color>)
        ensures
            r == adapted(*self, color),
    {
        if *self < TermProfile::Ansi16 {
            return None;
        }
        match color {
            Color::Ansi(_) => Some(color),
            Color::Ansi256(index) => {
                if *self >= TermProfile::Ansi256 {
                    Some(color)
                } else {
                    Some(Color::Ansi(ansi256_to_ansi(index)))
                }
            },
            Color::Rgb(rgb) => {
                if *self == TermProfile::TrueColor {
                    Some(color)
                } else {
                    let index = rgb_to_ansi256(rgb);
                    if *self == TermProfile::Ansi256 {
                        Some(Color::Ansi256(index))
                    } else {
                        Some(Color::Ansi(ansi256_to_ansi(index)))
                    }
                }
            },
        }
    }

    /// What the profile makes of `style`.
    pub fn adapt_style(&self, style: Style) -> (r: Style)
        ensures
            r == adapted_style(*self, style),
    {
        if *self == TermProfile::NoTty {
            return Style::new();
        }
        let mut style = style;
        if let Some(color) = style.get_fg_color() {
            style = style.fg_color(self.adapt_color(color));
        }
        if let Some(color) = style.get_bg_color() {
            style = style.bg_color(self.adapt_color(color));
        }
        if let Some(color) = style.get_underline_color() {
            style = style.underline_color(self.adapt_color(color));
        }
        style
    }
}

/// A colour that comes in up to three forms, one for each fidelity, and the
/// profile that chooses among them.
#[derive(Debug, Clone, Copy, PartialEq, Eq, Structural)]
pub struct ProfileColor {
    default: Color,
    ansi_256: Option<u8>,
    ansi_16: Option<AnsiColor>,
    profile: TermProfile,
}

impl ProfileColor {
    /// The form of the colour for a profile that can show it.
    pub closed spec fn default_color(&self) -> Color {
        self.default
    }

    /// The form for 256 colours, where one was given.
    pub closed spec fn palette_form(&self) -> Option<u8> {
        self.ansi_256
    }

    /// The form for sixteen colours, where one was given.
    pub closed spec fn named_form(&self) -> Option<AnsiColor> {
        self.ansi_16
    }

    /// The profile that chooses.
    pub closed spec fn profile(&self) -> TermProfile {
        self.profile
    }

    /// The form that the profile chooses: the one for sixteen colours where
    /// the profile has no more and the form was given; else the one for 256
    /// colours where the profile has no more and the form was given; else the
    /// default.
    pub open spec fn chosen(&self) -> Color {
        if self.profile().rank() <= TermProfile::Ansi16.rank() && self.named_form() is Some {
            Color::Ansi(self.named_form()->0)
        } else if self.profile().rank() <= TermProfile::Ansi256.rank() && self.palette_form()
            is Some {
            Color::Ansi256(self.palette_form()->0)
        } else {
            self.default_color()
        }
    }

    /// A colour with the one form `default_color`, for `profile`.
    pub fn new(default_color: Color, profile: TermProfile) -> (r: ProfileColor)
        ensures
            r.default_color() == default_color,
            r.palette_form() is None,
            r.named_form() is None,
            r.profile() == profile,
    {
        ProfileColor { default: default_color, ansi_256: None, ansi_16: None, profile }
    }

    /// Gives the form for 256 colours: `color` where it is a palette index,
    /// none where it is not.
    pub fn ansi_256(self, color: Color) -> (r: ProfileColor)
        ensures
            r.palette_form() == (match color {
                Color::Ansi256(index) => Some(index),
                _ => None,
            }),
            r.default_color() == self.default_color(),
            r.named_form() == self.named_form(),
            r.profile() == self.profile(),
    {
        let form = match color {
            Color::Ansi256(index) => Some(index),
            _ => None,
        };
        ProfileColor {
            default: self.default,
            ansi_256: form,
            ansi_16: self.ansi_16,
            profile: self.profile,
        }
    }

    /// Gives the form for sixteen colours: `color` where it is a named
    /// colour, none where it is not.
    pub fn ansi_16(self, color: Color) -> (r: ProfileColor)
        ensures
            r.named_form() == (match color {
                Color::Ansi(named) => Some(named),
                _ => None,
            }),
            r.default_color() == self.default_color(),
            r.palette_form() == self.palette_form(),
            r.profile() == self.profile(),
    {
        let form = match color {
            Color::Ansi(named) => Some(named),
            _ => None,
        };
        ProfileColor {
            default: self.default,
            ansi_256: self.ansi_256,
            ansi_16: form,
            profile: self.profile,
        }
    }

    /// What the profile makes of the form that it chooses.
    pub fn adapt(&self) -> (r: Option<Color>)
        ensures
            r == adapted(self.profile(), self.chosen()),
    {
        let mut color = self.default;
        if self.profile <= TermProfile::Ansi256 {
            if let Some(index) = self.ansi_256 {
                color = Color::Ansi256(index);
            }
        }
        if self.profile <= TermProfile::Ansi16 {
            if let Some(named) = self.ansi_16 {
                color = Color::Ansi(named);
            }
        }
        self.profile.adapt_color(color)
    }
}

/// What a profile makes of a colour needs no more fidelity than the profile
/// has, and no more than the colour needed before.
pub proof fn lemma_adapted_fidelity(profile: TermProfile, color: Color)
    ensures
        adapted(profile, color) matches Some(result) ==> result.fidelity().rank() <= profile.rank()
            && result.fidelity().rank() <= color.fidelity().rank(),
        profile.rank() < TermProfile::Ansi16.rank() ==> adapted(profile, color) is None,
{
}

/// To adapt a second time changes nothing: what a profile makes of a colour
/// it leaves as it is.
pub proof fn lemma_adapted_idempotent(profile: TermProfile, color: Color)
    ensures
        adapted_part(profile, adapted(profile, color)) == adapted(profile, color),
{
}

/// With a terminal the attributes of a style stay as they are, and where the
/// profile shows no colour none of its colours is left.
pub proof fn lemma_attributes_stay(profile: TermProfile, style: Style)
    requires
        profile != TermProfile::NoTty,
    ensures
        adapted_style(profile, style).effects == style.effects,
        profile == TermProfile::NoColor ==> adapted_style(profile, style) == (Style {
            fg: None,
            bg: None,
            underline: None,
            effects: style.effects,
        }),
{
}

/// Without a terminal, nothing is left of a style: no colour and no attribute.
pub proof fn lemma_no_tty_strips(style: Style)
    ensures
        adapted_style(TermProfile::NoTty, style).fg is None,
        adapted_style(TermProfile::NoTty, style).bg is None,
        adapted_style(TermProfile::NoTty, style).underline is None,
        adapted_style(TermProfile::NoTty, style).effects == 0,
{
}

} // verus!
