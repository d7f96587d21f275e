//! Fixed-point money values.
//!
//! A [`Money`] value is a signed count of ten-thousandths of the currency
//! unit, so every amount carries exactly four fractional digits and balance
//! arithmetic is exact integer arithmetic.

use vstd::prelude::*;

verus! {

/// Number of ten-thousandth units in one currency unit.
pub const UNITS_PER_WHOLE: i64 = 10_000;

/// Whether a mathematical amount lies in the representable fixed-point range.
pub open spec fn representable(v: int) -> bool {
    i64::MIN <= v <= i64::MAX
}

/// A fixed-point decimal amount with four fractional digits.
///
/// The mathematical value of a `Money` is its view: the number of
/// ten-thousandth units as an unbounded integer.
#[derive(Clone, Copy, Debug, PartialEq, Eq, Structural)]
pub struct Money {
    units: i64,
}

impl View for Money {
    type V = int;

    closed spec fn view(&self) -> int {
        self.units as int
    }
}

impl Money {
    /// Builds an amount from a raw count of ten-thousandth units.
    pub fn from_units(units: i64) -> (r: Money)
        ensures
            r@ == units as int,
    {
        Money { units }
    }

    /// The zero amount.
    pub fn zero() -> (r: Money)
        ensures
            r@ == 0,
    {
        Money { units: 0 }
    }

    /// The raw count of ten-thousandth units.
    pub fn units(&self) -> (r: i64)
        ensures
            r as int == self@,
    {
        self.units
    }

    /// Whether the amount is exactly zero.
    pub fn is_zero(&self) -> (r: bool)
        ensures
            r == (self@ == 0),
    {
        self.units == 0
    }

    /// Whether `self` is strictly greater than `other`.
    pub fn gt(&self, other: &Money) -> (r: bool)
        ensures
            r == (self@ > other@),
    {
        self.units > other.units
    }

    /// The sum, or `None` when it falls outside the representable range.
    pub fn checked_add(&self, other: &Money) -> (r: Option<Money>)
        ensures
            i64::MIN <= self@ + other@ <= i64::MAX ==> (r matches Some(m) && m@ == self@ + other@),
            !(i64::MIN <= self@ + other@ <= i64::MAX) ==> r is None,
    {
        match self.units.checked_add(other.units) {
            Some(units) => Some(Money { units }),
            None => None,
        }
    }

    /// The difference, or `None` when it falls outside the representable range.
    pub fn checked_sub(&self, other: &Money) -> (r: Option<Money>)
        ensures
            i64::MIN <= self@ - other@ <= i64::MAX ==> (r matches Some(m) && m@ == self@ - other@),
            !(i64::MIN <= self@ - other@ <= i64::MAX) ==> r is None,
    {
        match self.units.checked_sub(other.units) {
            Some(units) => Some(Money { units }),
            None => None,
        }
    }
}

} // verus!
