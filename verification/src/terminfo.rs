//! What a terminfo entry says of colour.

use crate::vars::TerminfoVars;
use vstd::prelude::*;

verus! {

/// The true-colour extension of an entry that holds `tc` under the extended
/// name `Tc` and `rgb` under `RGB`: what it holds under `Tc`, or, without
/// that, under `RGB`.
pub open spec fn truecolor_extension(tc: Option<bool>, rgb: Option<bool>) -> Option<bool> {
    if tc is Some {
        tc
    } else {
        rgb
    }
}

impl TerminfoVars {
    /// What an entry says of colour that holds `tc` under the extended name
    /// `Tc`, `rgb` under `RGB`, and `max_colors` for its number of colours.
    /// Each of the two extensions is `Some(true)` where the entry holds the
    /// name as a flag that is set, `Some(false)` where it holds it as
    /// anything else, and `None` where it does not hold it.
    pub fn from_caps(tc: Option<bool>, rgb: Option<bool>, max_colors: Option<i32>) -> (r:
        TerminfoVars)
        ensures
            r.truecolor == truecolor_extension(tc, rgb),
            r.max_colors == max_colors,
    {
        let truecolor = match tc {
            Some(flag) => Some(flag),
            None => rgb,
        };
        TerminfoVars { truecolor, max_colors }
    }
}

} // verus!
