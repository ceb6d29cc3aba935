//! The numeric quantity that pools and upgrades trade in.

use vstd::prelude::*;

verus! {

/// Number of stored parts that make up one whole unit.
pub const MILLIS_PER_UNIT: u128 = 1000;

/// A non-negative amount of some resource.
///
/// The amount is held in thousandths of a unit, so fractional prices such as
/// twelve and a half units are exact.  The abstract value of a `Magnitude`
/// (written `m@`) is that count of thousandths, a natural number.
#[derive(Clone, Copy, Debug, PartialEq, Eq, Structural, Hash)]
pub struct Magnitude {
    milli: u128,
}

impl View for Magnitude {
    type V = nat;

    closed spec fn view(&self) -> nat {
        self.milli as nat
    }
}

impl Magnitude {
    /// Returns the amount of `milli` thousandths of a unit.
    pub fn from_milli(milli: u128) -> (r: Magnitude)
        ensures
            r@ == milli,
    {
        Magnitude { milli }
    }

    /// Returns the amount of `units` whole units.
    pub fn from_whole(units: u64) -> (r: Magnitude)
        ensures
            r@ == units * MILLIS_PER_UNIT,
    {
        Magnitude { milli: units as u128 * MILLIS_PER_UNIT }
    }

    /// The distinguished amount of one whole unit.
    pub fn one() -> (r: Magnitude)
        ensures
            r@ == MILLIS_PER_UNIT,
    {
        Magnitude { milli: MILLIS_PER_UNIT }
    }

    /// The empty amount.
    pub fn zero() -> (r: Magnitude)
        ensures
            r@ == 0,
    {
        Magnitude { milli: 0 }
    }

    /// Returns the amount as a count of thousandths of a unit.
    pub fn as_milli(&self) -> (r: u128)
        ensures
            r == self@,
    {
        self.milli
    }

    /// Returns the sum of the two amounts.
    pub fn add(self, other: Magnitude) -> (r: Magnitude)
        requires
            self@ + other@ <= u128::MAX,
        ensures
            r@ == self@ + other@,
    {
        Magnitude { milli: self.milli + other.milli }
    }

    /// Returns the sum of the two amounts, or `None` when the sum cannot be
    /// represented.
    pub fn checked_add(self, other: Magnitude) -> (r: Option<Magnitude>)
        ensures
            self@ + other@ <= u128::MAX ==> (r matches Some(m) && m@ == self@ + other@),
            self@ + other@ > u128::MAX ==> r is None,
    {
        match self.milli.checked_add(other.milli) {
            Some(milli) => Some(Magnitude { milli }),
            None => None,
        }
    }

    /// Returns the difference of the two amounts.  The subtrahend must not
    /// exceed the amount: quantities are never negative.
    pub fn sub(self, other: Magnitude) -> (r: Magnitude)
        requires
            other@ <= self@,
        ensures
            r@ == self@ - other@,
    {
        Magnitude { milli: self.milli - other.milli }
    }

    /// Returns a quarter of the amount, rounded down to a thousandth.
    pub fn quarter(self) -> (r: Magnitude)
        ensures
            r@ == self@ / 4,
    {
        Magnitude { milli: self.milli / 4 }
    }

    /// Returns whether this amount is at most `other`.
    pub fn le(&self, other: &Magnitude) -> (r: bool)
        ensures
            r == (self@ <= other@),
    {
        self.milli <= other.milli
    }

    /// Returns whether this amount is at least `other`.
    pub fn ge(&self, other: &Magnitude) -> (r: bool)
        ensures
            r == (self@ >= other@),
    {
        self.milli >= other.milli
    }
}

impl Default for Magnitude {
    /// Returns the empty amount.
    fn default() -> (r: Magnitude)
        ensures
            r@ == 0,
    {
        Magnitude { milli: 0 }
    }
}

} // verus!
