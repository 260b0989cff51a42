//! Fixed-point fractions with eighteen decimal places, and the exact
//! multiply-then-divide arithmetic the distribution splits are built on.

use vstd::prelude::*;

verus! {

use vstd::arithmetic::div_mod::{
    lemma_div_by_multiple, lemma_div_is_ordered, lemma_fundamental_div_mod,
    lemma_hoist_over_denominator,
};
use vstd::arithmetic::mul::{
    lemma_mul_inequality, lemma_mul_is_commutative, lemma_mul_is_distributive_add_other_way,
    lemma_mul_upper_bound,
};

/// Number of atomic units in one whole unit of a `Decimal`.
pub const DECIMAL_FRACTIONAL: u128 = 1_000_000_000_000_000_000;

/// Number of atomic units in one percent.
pub const PERCENT_ATOMICS: u128 = 10_000_000_000_000_000;

/// A non-negative fixed-point number with eighteen fractional digits, stored
/// as its count of atomic units. The contract uses decimals only as shares of
/// an amount, so every constructor here produces a value of at most one.
#[derive(Clone, Copy, Debug, PartialEq, Eq, Structural)]
pub struct Decimal {
    pub atomics: u128,
}

impl Decimal {
    /// The value is at most one. Split percentages and protocol weights are
    /// shares of an amount, so the contract keeps every stored decimal here.
    pub open spec fn le_one(self) -> bool {
        self.atomics <= DECIMAL_FRACTIONAL
    }

    pub fn zero() -> (d: Decimal)
        ensures
            d.atomics == 0,
            d.le_one(),
    {
        Decimal { atomics: 0 }
    }

    pub fn one() -> (d: Decimal)
        ensures
            d.atomics == DECIMAL_FRACTIONAL,
            d.le_one(),
    {
        Decimal { atomics: DECIMAL_FRACTIONAL }
    }

    /// `x` percent, for `x` up to one hundred.
    pub fn percent(x: u64) -> (d: Decimal)
        requires
            x <= 100,
        ensures
            d.atomics == x * PERCENT_ATOMICS,
            d.le_one(),
    {
        Decimal { atomics: (x as u128) * PERCENT_ATOMICS }
    }

    /// The fraction `numerator / denominator`, truncated to eighteen decimal
    /// places. Only proper fractions are accepted, and the denominator must
    /// fit in sixty-four bits so that the arithmetic stays within `u128`.
    pub fn from_ratio(numerator: u128, denominator: u128) -> (d: Decimal)
        requires
            0 < denominator <= u64::MAX as u128,
            numerator <= denominator,
        ensures
            d.atomics == (numerator * DECIMAL_FRACTIONAL) as int / (denominator as int),
            d.le_one(),
    {
        let atomics = multiply_ratio(DECIMAL_FRACTIONAL, numerator, denominator);
        proof {
            lemma_mul_is_commutative(DECIMAL_FRACTIONAL as int, numerator as int);
        }
        Decimal { atomics }
    }

    pub fn is_zero(&self) -> (r: bool)
        ensures
            r == (self.atomics == 0),
    {
        self.atomics == 0
    }
}

/// `floor(amount * d)`, the share of `amount` that the fraction `d` names.
pub open spec fn dec_mul(amount: u128, d: Decimal) -> int {
    (amount as int * d.atomics as int) / (DECIMAL_FRACTIONAL as int)
}

/// Multiplies `amount` by the fraction `d`, truncating. A share of an amount
/// never exceeds the amount itself.
pub fn decimal_times(amount: u128, d: Decimal) -> (r: u128)
    requires
        d.le_one(),
    ensures
        r == dec_mul(amount, d),
        r <= amount,
{
    multiply_ratio(amount, d.atomics, DECIMAL_FRACTIONAL)
}

/// `floor(amount * numerator / denominator)`, computed exactly within `u128`.
///
/// The product `amount * numerator` can exceed `u128`, so the quotient is
/// assembled from `amount / denominator` and the remainder instead; the bounds
/// in the precondition keep every intermediate product in range.
pub fn multiply_ratio(amount: u128, numerator: u128, denominator: u128) -> (r: u128)
    requires
        0 < denominator <= u64::MAX as u128,
        numerator <= denominator,
    ensures
        r == (amount * numerator) as int / (denominator as int),
        r <= amount,
{
    let q = amount / denominator;
    let rem = amount % denominator;
    proof {
        let a = amount as int;
        let n = numerator as int;
        let d = denominator as int;
        lemma_fundamental_div_mod(a, d);
        // a == d * (a / d) + a % d, so q * d <= a.
        lemma_mul_is_commutative(d, a / d);
        // q * n <= q * d <= a: both products stay in range.
        lemma_mul_inequality(n, d, a / d);
        lemma_mul_is_commutative(n, a / d);
        lemma_mul_is_commutative(d, a / d);
        assert((a / d) * n <= (a / d) * d);
        // rem * n < d * d, which fits in u128 because d fits in u64.
        lemma_mul_upper_bound(a % d, d - 1, n, d);
        lemma_mul_upper_bound(d - 1, u64::MAX as int - 1, d, u64::MAX as int);
        // (a * n) == (q * n) * d + rem * n, so hoisting the multiple of d out
        // of the division splits the quotient.
        assert(a * n == (a % d) * n + ((a / d) * n) * d) by {
            lemma_mul_is_distributive_add_other_way(n, d * (a / d), a % d);
            lemma_mul_is_commutative(d * (a / d), n);
            assert(n * (d * (a / d)) == ((a / d) * n) * d) by (nonlinear_arith);
        }
        lemma_hoist_over_denominator((a % d) * n, (a / d) * n, denominator as nat);
        // The result is at most amount: a * n <= a * d and (a * d) / d == a.
        lemma_mul_inequality(n, d, a);
        lemma_mul_is_commutative(n, a);
        lemma_mul_is_commutative(d, a);
        lemma_div_is_ordered(a * n, a * d, d);
        lemma_div_by_multiple(a, d);
    }
    q * numerator + (rem * numerator) / denominator
}

} // verus!
