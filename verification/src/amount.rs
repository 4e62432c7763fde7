//! Fixed-point amounts: money, prices, percentages and metered quantities.

use vstd::prelude::*;

verus! {

/// Number of micro-units in one unit.
pub const MICROS_PER_UNIT: i64 = 1_000_000;

/// A decimal number with six fractional digits, held as a count of
/// millionths. Its view is that count.
#[derive(Clone, Copy, Debug, PartialEq, Eq, Structural)]
pub struct Amount {
    /// The amount in millionths of a unit.
    pub micros: i64,
}

impl View for Amount {
    type V = int;

    open spec fn view(&self) -> int {
        self.micros as int
    }
}

impl Amount {
    /// The amount of `micros` millionths.
    pub fn from_micros(micros: i64) -> (amount: Amount)
        ensures
            amount@ == micros,
            amount.micros == micros,
    {
        Amount { micros }
    }

    /// The amount of `units` whole units.
    pub fn from_units(units: i32) -> (amount: Amount)
        ensures
            amount@ == units * MICROS_PER_UNIT,
    {
        let wide: i64 = units as i64;
        Amount { micros: wide * MICROS_PER_UNIT }
    }

    /// Zero.
    pub fn zero() -> (amount: Amount)
        ensures
            amount@ == 0,
    {
        Amount { micros: 0 }
    }

    /// The amount in millionths of a unit.
    pub fn micros(&self) -> (micros: i64)
        ensures
            micros == self@,
    {
        self.micros
    }

    /// Whether the amount is below zero.
    pub fn is_negative(&self) -> (negative: bool)
        ensures
            negative == (self@ < 0),
    {
        self.micros < 0
    }
}

/// Whether `value` millionths can be held by an [`Amount`].
pub open spec fn amount_fits(value: int) -> bool {
    i64::MIN <= value <= i64::MAX
}

/// The amount of `value` millionths where that many can be held, `None`
/// where they cannot.
pub open spec fn amount_of(value: int) -> Option<Amount> {
    if amount_fits(value) {
        Some(Amount { micros: value as i64 })
    } else {
        None
    }
}

/// The quotient of `n` by `d` rounded towards negative infinity.
pub fn floor_div(n: i128, d: i128) -> (q: i128)
    requires
        d > 0,
        d - i128::MAX <= n <= i128::MAX - d,
    ensures
        q == n / d,
{
    if n >= 0 {
        n / d
    } else {
        let m: i128 = -n;
        let up: i128 = (m + (d - 1)) / d;
        proof {
            lemma_floor_of_negative(m as int, d as int);
        }
        -up
    }
}

/// Rounding a negative quotient down is rounding its opposite up.
proof fn lemma_floor_of_negative(m: int, d: int)
    by (nonlinear_arith)
    requires
        m > 0,
        d > 0,
    ensures
        (-m) / d == -((m + d - 1) / d),
{
}

} // verus!
