use vstd::prelude::*;

verus! {

use vstd::arithmetic::div_mod::{
    lemma_div_is_ordered,
    lemma_div_pos_is_pos,
    lemma_div_multiples_vanish,
    lemma_fundamental_div_mod,
    lemma_hoist_over_denominator,
    lemma_mul_hoist_inequality,
};
use vstd::arithmetic::mul::{
    lemma_mul_inequality,
    lemma_mul_is_commutative,
    lemma_mul_is_distributive_add_other_way,
    lemma_mul_is_associative,
    lemma_mul_nonnegative,
    lemma_mul_upper_bound,
};

/// Fixed-point scale: every ratio, fee and price in this crate is an integer
/// scaled by this constant, so the integer `PRECISION` denotes a ratio of 1.0.
pub const PRECISION: u128 = 1_000_000;

/// Smallest-denomination units per whole collateral token (six decimals).
pub const LUNA: u128 = 1_000_000;

pub struct Unit;

impl Unit {
    /// Scales a whole-token count to its smallest on-chain denomination.
    pub fn luna(value: u128) -> (r: u128)
        requires
            value * LUNA <= u128::MAX,
        ensures
            r == value * LUNA,
    {
        value * LUNA
    }

    /// The fixed-point scale as an executable value.
    pub fn precision() -> (r: u128)
        ensures
            r == PRECISION,
    {
        PRECISION
    }
}

pub struct SwapPairUtils;

impl SwapPairUtils {
    /// Picks the cumulative-price counter of the configured base leg out of
    /// the two counters a swap pair reports.
    pub fn select_cumulative_price(
        price0_cumulative: u128,
        price1_cumulative: u128,
        base_index: u8,
    ) -> (r: u128)
        ensures
            r == if base_index == 0 {
                price0_cumulative
            } else {
                price1_cumulative
            },
    {
        if base_index == 0 {
            price0_cumulative
        } else {
            price1_cumulative
        }
    }
}

/// A product of two nonnegative factors divided by a positive denominator is
/// at most the first factor whenever the second factor is at most the
/// denominator, and it is never negative.
pub proof fn lemma_mul_div_le_self(x: int, num: int, den: int)
    requires
        0 <= x,
        0 <= num <= den,
        0 < den,
    ensures
        0 <= x * num / den <= x,
{
    lemma_mul_nonnegative(x, num);
    lemma_div_pos_is_pos(x * num, den);
    lemma_mul_inequality(num, den, x);
    lemma_mul_is_commutative(num, x);
    lemma_mul_is_commutative(den, x);
    lemma_div_is_ordered(x * num, x * den, den);
    lemma_div_multiples_vanish(x, den);
    lemma_mul_is_commutative(den, x);
}

/// Splitting the first factor of `hi * lo / d` at the denominator:
/// `hi * lo / d == (hi / d) * lo + (hi % d) * lo / d`, and the first summand
/// alone never exceeds the quotient.
proof fn lemma_mul_div_split(hi: int, lo: int, d: int)
    requires
        0 <= hi,
        0 <= lo,
        0 < d,
    ensures
        hi * lo / d == (hi / d) * lo + (hi % d) * lo / d,
        0 <= (hi / d) * lo <= hi * lo / d,
{
    let q = hi / d;
    let rem = hi % d;
    lemma_fundamental_div_mod(hi, d);
    assert(hi == d * q + rem);
    assert(hi * lo == (d * q + rem) * lo);
    lemma_mul_is_distributive_add_other_way(lo, d * q, rem);
    assert(hi * lo == (d * q) * lo + rem * lo);
    lemma_mul_is_associative(d, q, lo);
    assert(hi * lo == (q * lo) * d + rem * lo) by {
        lemma_mul_is_commutative(d, q * lo);
    }
    lemma_mul_nonnegative(rem, lo);
    lemma_hoist_over_denominator(rem * lo, q * lo, d as nat);
    assert(rem * lo / d + q * lo == (rem * lo + (q * lo) * d) / d);
    assert(hi * lo / d == q * lo + rem * lo / d);
    lemma_div_pos_is_pos(hi, d);
    lemma_mul_nonnegative(q, lo);
    lemma_div_pos_is_pos(rem * lo, d);
}

/// Floor of `a * b / PRECISION`, computed so that no machine operation leaves
/// `u128` even though the full product `a * b` may: the larger factor is split
/// at the denominator first.
pub fn mul_div_precision(a: u128, b: u128) -> (r: u128)
    requires
        a * b / (PRECISION as int) <= u128::MAX,
    ensures
        r == a * b / (PRECISION as int),
{
    let (hi, lo) = if a >= b {
        (a, b)
    } else {
        (b, a)
    };
    let q = hi / PRECISION;
    let rem = hi % PRECISION;
    proof {
        let p = PRECISION as int;
        assert(hi as int * lo as int == a as int * b as int) by {
            lemma_mul_is_commutative(a as int, b as int);
        }
        lemma_mul_div_split(hi as int, lo as int, p);
        // Bound the cross term: from `hi * lo / p <= u128::MAX` the smaller
        // factor is at most 2^64 * 1000, since (2^64 * 1000)^2 == 2^128 * p.
        let big: int = 18_446_744_073_709_551_616_000;
        lemma_fundamental_div_mod(hi as int * lo as int, p);
        assert(hi as int * lo as int <= p * (u128::MAX as int) + p - 1);
        lemma_mul_inequality(lo as int, hi as int, lo as int);
        assert(lo as int * lo as int <= hi as int * lo as int) by {
            lemma_mul_is_commutative(hi as int, lo as int);
        }
        assert(lo as int <= big) by {
            if lo as int > big {
                lemma_mul_inequality(big, lo as int, big);
                lemma_mul_inequality(big, lo as int, lo as int);
                assert(big * big <= lo as int * lo as int);
            }
        }
        lemma_mul_upper_bound(rem as int, p - 1, lo as int, big);
        assert((p - 1) * big <= u128::MAX as int);
    }
    q * lo + rem * lo / PRECISION
}

/// Floor of `a * b / c` when `b <= c`, so the result never exceeds `a`.
pub fn mul_div_le(a: u128, b: u64, c: u64) -> (r: u128)
    requires
        b <= c,
        0 < c,
    ensures
        r == a as int * b as int / (c as int),
        r <= a,
{
    let q = a / (c as u128);
    let rem = a % (c as u128);
    proof {
        lemma_mul_div_split(a as int, b as int, c as int);
        lemma_mul_div_le_self(a as int, b as int, c as int);
        lemma_mul_upper_bound(rem as int, c as int - 1, b as int, c as int);
        lemma_mul_upper_bound(c as int - 1, u64::MAX - 1, c as int, u64::MAX as int);
    }
    q * (b as u128) + rem * (b as u128) / (c as u128)
}

} // verus!
