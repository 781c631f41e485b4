//! Non-negative fixed-point numbers with eighteen fractional digits.
//!
//! Prices and multipliers are carried as an integer count of `1 / SCALE`
//! parts, so that every product is exact before it is rounded and rounding
//! is always upwards: a fee is never charged below the exact product.

use vstd::arithmetic::div_mod::{
    lemma_fundamental_div_mod, lemma_fundamental_div_mod_converse, lemma_mod_bound,
};
use vstd::prelude::*;

verus! {

/// Number of units that make up one whole.
pub const SCALE: u128 = 1_000_000_000_000_000_000;

/// The least integer that is not below `x / d`.
pub open spec fn ceil_div(x: nat, d: nat) -> nat
    recommends
        d > 0,
{
    if x % d == 0 {
        x / d
    } else {
        x / d + 1
    }
}

/// The rounded quotient times the divisor covers the dividend.
pub proof fn lemma_ceil_div_covers(x: nat, d: nat)
    requires
        d > 0,
    ensures
        x <= ceil_div(x, d) * d,
{
    lemma_fundamental_div_mod(x as int, d as int);
    lemma_mod_bound(x as int, d as int);
    let c = ceil_div(x, d);
    assert(x <= c * d) by (nonlinear_arith)
        requires
            x == d * (x / d) + x % d,
            0 <= x % d < d,
            c == if x % d == 0 {
                x / d
            } else {
                x / d + 1
            },
    ;
}

/// No smaller integer than the rounded quotient covers the dividend.
pub proof fn lemma_ceil_div_is_least(x: nat, d: nat, q: nat)
    requires
        d > 0,
        x <= q * d,
    ensures
        ceil_div(x, d) <= q,
{
    lemma_fundamental_div_mod(x as int, d as int);
    lemma_mod_bound(x as int, d as int);
    let c = ceil_div(x, d);
    if q < c {
        assert(q * d < x) by (nonlinear_arith)
            requires
                x == d * (x / d) + x % d,
                0 <= x % d < d,
                d > 0,
                q < c,
                c == if x % d == 0 {
                    x / d
                } else {
                    x / d + 1
                },
        ;
    }
}

/// A whole multiple of the divisor moves out of the rounded quotient.
pub proof fn lemma_ceil_div_add_multiple(k: nat, x: nat, d: nat)
    requires
        d > 0,
    ensures
        ceil_div(k * d + x, d) == k + ceil_div(x, d),
{
    let y = k * d + x;
    lemma_fundamental_div_mod(x as int, d as int);
    lemma_mod_bound(x as int, d as int);
    let q = k + x / d;
    let r = x % d;
    assert(y == q * d + r) by (nonlinear_arith)
        requires
            y == k * d + x,
            x == d * (x / d) + x % d,
            q == k + x / d,
            r == x % d,
    ;
    lemma_fundamental_div_mod_converse(y as int, d as int, q as int, r as int);
}

/// Rounding up keeps the order of the dividends.
pub proof fn lemma_ceil_div_monotonic(x: nat, y: nat, d: nat)
    requires
        d > 0,
        x <= y,
    ensures
        ceil_div(x, d) <= ceil_div(y, d),
{
    lemma_ceil_div_covers(y, d);
    lemma_ceil_div_is_least(x, d, ceil_div(y, d));
}

/// A non-negative number with eighteen fractional digits, held as the count
/// of its `1 / SCALE` parts.
#[derive(Clone, Copy, Debug, PartialEq, Eq, Structural)]
pub struct Decimal {
    pub units: u128,
}

/// The exact product of a decimal's units with an integer, rounded up to
/// whole numbers.
pub open spec fn scaled_product_ceil(units: nat, n: nat) -> nat {
    ceil_div(units * n, SCALE as nat)
}

impl Decimal {
    /// The decimal that holds `units` parts of `1 / SCALE`.
    pub fn from_units(units: u128) -> (d: Decimal)
        ensures
            d.units == units,
    {
        Decimal { units }
    }

    /// The whole number `n`.
    pub fn from_integer(n: u64) -> (d: Decimal)
        ensures
            d.units == n * SCALE,
    {
        assert(n * SCALE <= u128::MAX) by (nonlinear_arith)
            requires
                n <= u64::MAX,
                SCALE == 1_000_000_000_000_000_000,
        ;
        Decimal { units: (n as u128) * SCALE }
    }

    /// The number zero.
    pub fn zero() -> (d: Decimal)
        ensures
            d.units == 0,
    {
        Decimal { units: 0 }
    }

    /// The number one.
    pub fn one() -> (d: Decimal)
        ensures
            d.units == SCALE,
    {
        Decimal { units: SCALE }
    }

    /// The count of `1 / SCALE` parts.
    pub fn units(&self) -> (u: u128)
        ensures
            u == self.units,
    {
        self.units
    }

    /// Whether this number is at least one.
    pub fn at_least_one(&self) -> (b: bool)
        ensures
            b == (self.units >= SCALE),
    {
        self.units >= SCALE
    }

    /// Whether this number is not above `other`.
    pub fn le(&self, other: &Decimal) -> (b: bool)
        ensures
            b == (self.units <= other.units),
    {
        self.units <= other.units
    }

    /// The smaller of two numbers.
    pub fn min(self, other: Decimal) -> (m: Decimal)
        ensures
            m.units == if self.units <= other.units {
                self.units
            } else {
                other.units
            },
    {
        if self.units <= other.units {
            self
        } else {
            other
        }
    }

    /// The product of this number with the integer `n`, rounded up to a
    /// whole number; `None` exactly when that whole number exceeds `u128`.
    pub fn mul_int_ceil(self, n: u64) -> (r: Option<u128>)
        ensures
            match r {
                Some(v) => v == scaled_product_ceil(self.units as nat, n as nat),
                None => scaled_product_ceil(self.units as nat, n as nat) > u128::MAX,
            },
    {
        let whole: u128 = self.units / SCALE;
        let rest: u128 = self.units % SCALE;
        let ghost exact = scaled_product_ceil(self.units as nat, n as nat);
        proof {
            lemma_fundamental_div_mod(self.units as int, SCALE as int);
            assert(rest * n <= u128::MAX) by (nonlinear_arith)
                requires
                    rest < 1_000_000_000_000_000_000,
                    n <= u64::MAX,
            ;
            assert(self.units * n == (whole * n) * SCALE + rest * n) by (nonlinear_arith)
                requires
                    self.units == SCALE * whole + rest,
            ;
            lemma_ceil_div_add_multiple((whole * n) as nat, (rest * n) as nat, SCALE as nat);
            assert(exact == whole * n + ceil_div((rest * n) as nat, SCALE as nat));
        }
        let part: u128 = rest * (n as u128);
        let part_up: u128 = if part % SCALE == 0 {
            part / SCALE
        } else {
            part / SCALE + 1
        };
        assert(part_up == ceil_div((rest * n) as nat, SCALE as nat));
        match whole.checked_mul(n as u128) {
            None => None,
            Some(w) => w.checked_add(part_up),
        }
    }

    /// The product of two numbers, rounded up to the next `1 / SCALE`;
    /// `None` exactly when that product exceeds the largest decimal.
    pub fn mul_ceil(self, other: Decimal) -> (r: Option<Decimal>)
        ensures
            match r {
                Some(v) => v.units == scaled_product_ceil(self.units as nat, other.units as nat),
                None => scaled_product_ceil(self.units as nat, other.units as nat) > u128::MAX,
            },
    {
        let whole: u128 = other.units / SCALE;
        let rest: u128 = other.units % SCALE;
        let ghost exact = scaled_product_ceil(self.units as nat, other.units as nat);
        proof {
            lemma_fundamental_div_mod(other.units as int, SCALE as int);
            assert(self.units * other.units == (self.units * whole) * SCALE + self.units * rest)
                by (nonlinear_arith)
                requires
                    other.units == SCALE * whole + rest,
            ;
            lemma_ceil_div_add_multiple(
                (self.units * whole) as nat,
                (self.units * rest) as nat,
                SCALE as nat,
            );
            assert(exact == self.units * whole + scaled_product_ceil(
                self.units as nat,
                rest as nat,
            ));
        }
        let low: Option<u128> = self.mul_int_ceil(rest as u64);
        match (self.units.checked_mul(whole), low) {
            (Some(h), Some(l)) => match h.checked_add(l) {
                Some(units) => Some(Decimal { units }),
                None => None,
            },
            _ => None,
        }
    }
}

} // verus!
