//! The ordered scale of terminal colour capability.

use core::cmp::Ordering;
use vstd::prelude::*;
use vstd::std_specs::cmp::{PartialOrdSpec, PartialOrdSpecImpl};

verus! {

/// How much colour an output stream can show. The variants are listed from the
/// least capable to the most capable, and that is how they compare.
#[derive(Debug, Clone, Copy, PartialEq, Eq, Structural, Hash, Ord)]
pub enum TermProfile {
    /// No terminal is attached: the output is piped, or the program does not run on a tty.
    NoTty,
    /// Text attributes may be used, colours may not.
    NoColor,
    /// The sixteen named colours.
    Ansi16,
    /// The 256-colour palette.
    Ansi256,
    /// Any RGB colour.
    TrueColor,
}

impl TermProfile {
    /// The position of the profile on the scale, from 0 (`NoTty`) to 4 (`TrueColor`).
    pub open spec fn rank(self) -> int {
        match self {
            TermProfile::NoTty => 0,
            TermProfile::NoColor => 1,
            TermProfile::Ansi16 => 2,
            TermProfile::Ansi256 => 3,
            TermProfile::TrueColor => 4,
        }
    }

    /// The more capable of two profiles.
    pub open spec fn higher(self, other: TermProfile) -> TermProfile {
        if self.rank() >= other.rank() {
            self
        } else {
            other
        }
    }

    /// The position of the profile on the scale.
    pub fn level(self) -> (r: u8)
        ensures
            r == self.rank(),
    {
        match self {
            TermProfile::NoTty => 0,
            TermProfile::NoColor => 1,
            TermProfile::Ansi16 => 2,
            TermProfile::Ansi256 => 3,
            TermProfile::TrueColor => 4,
        }
    }

    /// The more capable of `self` and `other`: how a rule raises a floor.
    pub fn max(self, other: TermProfile) -> (r: TermProfile)
        ensures
            r == self.higher(other),
    {
        if self.level() >= other.level() {
            self
        } else {
            other
        }
    }
}

impl PartialOrd for TermProfile {
    fn partial_cmp(&self, other: &TermProfile) -> (r: Option<Ordering>) {
        let a: u8 = self.level();
        let b: u8 = other.level();
        if a < b {
            Some(Ordering::Less)
        } else if a == b {
            Some(Ordering::Equal)
        } else {
            Some(Ordering::Greater)
        }
    }
}

impl PartialOrdSpecImpl for TermProfile {
    open spec fn obeys_partial_cmp_spec() -> bool {
        true
    }

    open spec fn partial_cmp_spec(&self, other: &TermProfile) -> Option<Ordering> {
        if self.rank() < other.rank() {
            Some(Ordering::Less)
        } else if self.rank() == other.rank() {
            Some(Ordering::Equal)
        } else {
            Some(Ordering::Greater)
        }
    }
}

/// The scale is a strict total order, `NoTty` below `NoColor` below `Ansi16`
/// below `Ansi256` below `TrueColor`: profiles compare as their ranks do, and
/// two profiles of one rank are the same profile.
pub proof fn lemma_profile_order(a: TermProfile, b: TermProfile)
    ensures
        TermProfile::NoTty.rank() < TermProfile::NoColor.rank() < TermProfile::Ansi16.rank()
            < TermProfile::Ansi256.rank() < TermProfile::TrueColor.rank(),
        a.rank() == b.rank() <==> a == b,
        PartialOrdSpec::partial_cmp_spec(&a, &b) == Some(Ordering::Less) <==> a.rank() < b.rank(),
        PartialOrdSpec::partial_cmp_spec(&a, &b) == Some(Ordering::Equal) <==> a == b,
        PartialOrdSpec::partial_cmp_spec(&a, &b) == Some(Ordering::Greater) <==> a.rank() > b.rank(),
        a.higher(b) == b.higher(a),
        a.higher(b).rank() >= a.rank(),
        a.higher(b).rank() >= b.rank(),
        a.higher(b) == a || a.higher(b) == b,
{
}

} // verus!
