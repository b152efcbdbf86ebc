//! Normalized fraction parameters.
//!
//! Runtime parameters such as the per-session reward or the treasury burn are
//! fractions stored as an integer count of parts of a fixed denominator:
//! parts per billion (`Perbill`) or parts per million (`Permill`). Every
//! constructor saturates at one, so a well-formed value never exceeds the
//! denominator.

use vstd::prelude::*;

verus! {

/// Parts per billion of the denominator `PERBILL_ONE`.
pub const PERBILL_ONE: u32 = 1_000_000_000;

/// Parts per million of the denominator `PERMILL_ONE`.
pub const PERMILL_ONE: u32 = 1_000_000;

/// A fraction in `[0, 1]`, stored as parts per billion.
#[derive(Clone, Copy, Debug, PartialEq, Eq, Structural)]
pub struct Perbill {
    pub parts: u32,
}

/// A fraction in `[0, 1]`, stored as parts per million.
#[derive(Clone, Copy, Debug, PartialEq, Eq, Structural)]
pub struct Permill {
    pub parts: u32,
}

impl Perbill {
    /// A well-formed value holds at most the whole denominator.
    pub open spec fn wf(self) -> bool {
        self.parts <= PERBILL_ONE
    }

    /// Parts per billion a percentage clamps to.
    pub open spec fn spec_from_percent(x: u32) -> int {
        if x > 100 {
            1_000_000_000
        } else {
            x * 10_000_000
        }
    }

    /// Parts per billion a count of millionths clamps to.
    pub open spec fn spec_from_millionths(x: u32) -> int {
        if x > 1_000_000 {
            1_000_000_000
        } else {
            x * 1_000
        }
    }

    /// Build from a percentage, clamping anything above one hundred percent
    /// down to one.
    pub fn from_percent(x: u32) -> (r: Perbill)
        ensures
            r.parts == Self::spec_from_percent(x),
            r.wf(),
    {
        let clamped: u32 = if x > 100 { 100 } else { x };
        Perbill { parts: clamped * 10_000_000 }
    }

    /// Build from parts per million, clamping anything above one million
    /// down to one.
    pub fn from_millionths(x: u32) -> (r: Perbill)
        ensures
            r.parts == Self::spec_from_millionths(x),
            r.wf(),
    {
        let clamped: u32 = if x > 1_000_000 { 1_000_000 } else { x };
        Perbill { parts: clamped * 1_000 }
    }
}

impl Permill {
    /// A well-formed value holds at most the whole denominator.
    pub open spec fn wf(self) -> bool {
        self.parts <= PERMILL_ONE
    }

    /// Parts per million a percentage clamps to.
    pub open spec fn spec_from_percent(x: u32) -> int {
        if x > 100 {
            1_000_000
        } else {
            x * 10_000
        }
    }

    /// Parts per million a count of millionths clamps to.
    pub open spec fn spec_from_millionths(x: u32) -> int {
        if x > 1_000_000 {
            1_000_000
        } else {
            x as int
        }
    }

    /// Build from a percentage, clamping anything above one hundred percent
    /// down to one.
    pub fn from_percent(x: u32) -> (r: Permill)
        ensures
            r.parts == Self::spec_from_percent(x),
            r.wf(),
    {
        let clamped: u32 = if x > 100 { 100 } else { x };
        Permill { parts: clamped * 10_000 }
    }

    /// Build from parts per million, clamping anything above one million
    /// down to one.
    pub fn from_millionths(x: u32) -> (r: Permill)
        ensures
            r.parts == Self::spec_from_millionths(x),
            r.wf(),
    {
        if x > 1_000_000 {
            Permill { parts: 1_000_000 }
        } else {
            Permill { parts: x }
        }
    }
}

} // verus!
