//! Exact quotients, handed to callers that render them as decimals.

use vstd::prelude::*;

verus! {

/// The quotient `num / den`.
#[derive(Clone, Copy, Debug, PartialEq, Eq, Structural)]
pub struct Fraction {
    pub num: u128,
    pub den: u128,
}

impl Fraction {
    /// A fraction with a zero denominator stands for no value at all.
    pub open spec fn well_formed(self) -> bool {
        self.den > 0
    }

    /// `num / den` as a quotient of integers is at most one.
    pub open spec fn at_most_one(self) -> bool {
        self.num <= self.den
    }
}

/// `part / whole`, or nothing when `whole` is zero.
pub open spec fn share(part: nat, whole: nat) -> Option<Fraction> {
    if whole == 0 {
        None
    } else {
        Some(Fraction { num: part as u128, den: whole as u128 })
    }
}

/// `part / whole`, or `None` when `whole` is zero.
pub fn share_of(part: u64, whole: u64) -> (r: Option<Fraction>)
    ensures
        r == share(part as nat, whole as nat),
        r matches Some(f) ==> f.well_formed(),
{
    if whole == 0 {
        None
    } else {
        Some(Fraction { num: part as u128, den: whole as u128 })
    }
}

/// The number `hi * 2^128 + lo`, wide enough to sum many 128-bit values.
#[derive(Clone, Copy, Debug, PartialEq, Eq, Structural)]
pub struct Wide {
    pub hi: u128,
    pub lo: u128,
}

impl Wide {
    pub open spec fn value(self) -> nat {
        self.hi as nat * 0x1_0000_0000_0000_0000_0000_0000_0000_0000 + self.lo as nat
    }

    pub fn zero() -> (r: Wide)
        ensures
            r.value() == 0,
            r.hi == 0,
    {
        Wide { hi: 0, lo: 0 }
    }

    /// `self + x`, carrying into the high half.
    pub fn add(self, x: u128) -> (r: Wide)
        requires
            self.hi < u128::MAX,
        ensures
            r.value() == self.value() + x,
            r.hi <= self.hi + 1,
    {
        match self.lo.checked_add(x) {
            Some(lo) => Wide { hi: self.hi, lo },
            None => Wide { hi: self.hi + 1, lo: x - (u128::MAX - self.lo) - 1 },
        }
    }
}

/// The quotient `num / den` of two wide numbers.
#[derive(Clone, Copy, Debug, PartialEq, Eq, Structural)]
pub struct WideFraction {
    pub num: Wide,
    pub den: Wide,
}

} // verus!
