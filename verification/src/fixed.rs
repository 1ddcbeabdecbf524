//! Fixed-point decimal quantities.
//!
//! Sizes and prices are held as a signed count of millionths of a unit, so
//! every quantity the strategy works with has exactly six decimal digits of
//! precision.  Venue-reported fill sizes are truncated toward zero to two
//! decimal places before they are used, and a non-positive truncated size is
//! replaced by a caller-supplied fallback.

use vstd::prelude::*;

verus! {

/// Number of raw ticks in one unit: six decimal digits of precision.
pub const FIXED_SCALE: i64 = 1_000_000;

/// A decimal quantity or price: `raw` counts millionths of a unit.
#[derive(Clone, Copy, PartialEq, Eq, Structural, Debug)]
pub struct Fixed {
    pub raw: i64,
}

impl Fixed {
    /// The zero quantity.
    pub fn zero() -> (r: Fixed)
        ensures
            r.raw == 0,
    {
        Fixed { raw: 0 }
    }

    /// A quantity given directly as a count of millionths.
    pub fn from_raw(raw: i64) -> (r: Fixed)
        ensures
            r.raw == raw,
    {
        Fixed { raw }
    }

    /// A whole number of units; the bound keeps the scaled value within
    /// `i64`.
    pub fn from_int(units: i64) -> (r: Fixed)
        requires
            -9_223_372_036_854 <= units <= 9_223_372_036_854,
        ensures
            r.raw == units * FIXED_SCALE,
    {
        Fixed { raw: units * FIXED_SCALE }
    }
}

/// Truncation of `v` toward zero to a multiple of the positive divisor `d`.
pub open spec fn trunc_toward_zero(v: int, d: int) -> int {
    if v >= 0 {
        (v / d) * d
    } else {
        -(((-v) / d) * d)
    }
}

/// Ten to the `n`th power.
pub open spec fn pow10(n: nat) -> int
    decreases n,
{
    if n == 0 {
        1
    } else {
        10 * pow10((n - 1) as nat)
    }
}

/// Truncating `v` toward zero to a multiple of `d` never increases the
/// magnitude and keeps the sign.
pub proof fn lemma_trunc_toward_zero_bounds(v: int, d: int)
    requires
        d > 0,
    ensures
        v >= 0 ==> 0 <= trunc_toward_zero(v, d) <= v,
        v < 0 ==> v <= trunc_toward_zero(v, d) <= 0,
{
    if v >= 0 {
        lemma_trunc_nonneg(v, d);
    } else {
        lemma_trunc_nonneg(-v, d);
    }
}

/// For a nonnegative `v` and positive `d`, `(v / d) * d` lands in `[0, v]`
/// and is within `d` of `v`.
pub proof fn lemma_trunc_nonneg(v: int, d: int)
    requires
        v >= 0,
        d > 0,
    ensures
        (v / d) * d == v - v % d,
        0 <= (v / d) * d <= v,
        v - (v / d) * d < d,
{
    vstd::arithmetic::div_mod::lemma_fundamental_div_mod(v, d);
    vstd::arithmetic::div_mod::lemma_mod_bound(v, d);
    vstd::arithmetic::mul::lemma_mul_is_commutative(d, v / d);
}

/// Truncate toward zero to `dp` decimal places (a multiple of
/// `pow10(6 - dp)` raw ticks).
pub fn floor_dp(value: Fixed, dp: u32) -> (r: Fixed)
    requires
        dp <= 6,
    ensures
        r.raw == trunc_toward_zero(value.raw as int, pow10((6 - dp) as nat)),
{
    let d: i64 = match dp {
        0 => 1_000_000,
        1 => 100_000,
        2 => 10_000,
        3 => 1_000,
        4 => 100,
        5 => 10,
        _ => 1,
    };
    proof {
        reveal_with_fuel(pow10, 8);
        assert(d == pow10((6 - dp) as nat));
        lemma_trunc_toward_zero_bounds(value.raw as int, d as int);
    }
    if value.raw >= 0 {
        Fixed { raw: (value.raw / d) * d }
    } else {
        let m: i128 = -(value.raw as i128);
        let t: i128 = (m / (d as i128)) * (d as i128);
        proof {
            lemma_trunc_nonneg(m as int, d as int);
        }
        Fixed { raw: (-t) as i64 }
    }
}

/// Truncation toward zero to two decimal places, in raw ticks.
pub open spec fn spec_floor2(v: int) -> int {
    trunc_toward_zero(v, 10_000)
}

/// The normalized form of a venue-reported size: truncated toward zero to two
/// decimal places, with the fallback substituted when the truncated size is
/// not positive.
pub open spec fn spec_normalized_size(size: int, fallback: int) -> int {
    if spec_floor2(size) <= 0 {
        fallback
    } else {
        spec_floor2(size)
    }
}

/// Truncate a venue-reported size toward zero to two decimal places; if the
/// result is not positive the report is treated as bad data and `fallback` is
/// returned instead.
pub fn normalized_size(size: Fixed, fallback: Fixed) -> (r: Fixed)
    ensures
        r.raw == spec_normalized_size(size.raw as int, fallback.raw as int),
{
    let s = floor_dp(size, 2);
    proof {
        reveal_with_fuel(pow10, 5);
        assert(pow10(4) == 10_000);
    }
    if s.raw <= 0 {
        fallback
    } else {
        s
    }
}

/// Largest raw size the strategy accepts from the venue: nine million units.
/// Keeping sizes under this bound and prices within one unit makes every
/// product taken in the exit-size formula fit in 64 bits.
pub const MAX_QTY_RAW: i64 = 9_000_000_000_000;

/// The hedge size corrected for a partial fill of the sibling leg: when the
/// sibling shows a positive fill, the hedge covers only the absolute
/// difference between the truncated fill and the intended hedge size;
/// otherwise the intended size stands.
pub open spec fn spec_corrected_hedge_size(hedge: int, fill: int) -> int {
    if fill > 0 {
        let c = spec_floor2(fill);
        if c >= hedge {
            c - hedge
        } else {
            hedge - c
        }
    } else {
        hedge
    }
}

/// Correct the intended hedge size for a partial fill observed on the
/// sibling leg.
pub fn corrected_hedge_size(hedge_size: Fixed, sibling_fill: Fixed) -> (r: Fixed)
    requires
        0 <= hedge_size.raw,
    ensures
        r.raw == spec_corrected_hedge_size(hedge_size.raw as int, sibling_fill.raw as int),
{
    if sibling_fill.raw > 0 {
        let c = floor_dp(sibling_fill, 2);
        proof {
            reveal_with_fuel(pow10, 5);
            assert(pow10(4) == 10_000);
            lemma_trunc_toward_zero_bounds(sibling_fill.raw as int, 10_000);
        }
        if c.raw >= hedge_size.raw {
            Fixed { raw: c.raw - hedge_size.raw }
        } else {
            Fixed { raw: hedge_size.raw - c.raw }
        }
    } else {
        hedge_size
    }
}

/// The corrected hedge size is strictly positive whenever the intended hedge
/// size is, except when the truncated sibling fill equals the intended size
/// exactly; and it never exceeds the intended size plus the magnitude of the
/// partial-fill correction.
pub proof fn lemma_corrected_hedge_size_bounds(hedge: int, fill: int)
    requires
        hedge > 0,
        fill > 0 ==> spec_floor2(fill) != hedge,
    ensures
        spec_corrected_hedge_size(hedge, fill) > 0,
        spec_corrected_hedge_size(hedge, fill) <= hedge + spec_correction_magnitude(hedge, fill),
{
    if fill > 0 {
        lemma_trunc_toward_zero_bounds(fill, 10_000);
    }
}

/// The magnitude of the partial-fill correction: how far the truncated
/// sibling fill sits from the intended hedge size, and zero when no positive
/// fill was observed.
pub open spec fn spec_correction_magnitude(hedge: int, fill: int) -> int {
    if fill > 0 {
        let c = spec_floor2(fill);
        if c >= hedge {
            c - hedge
        } else {
            hedge - c
        }
    } else {
        0
    }
}

/// Size of the forced market exit: the close size scaled by the ratio of the
/// entry price to the cost of the opposite side at the current price, then
/// normalized with a zero fallback.  When the current price is at or above
/// one unit the formula has no positive value and the size is zero.
pub open spec fn spec_exit_size(close: int, entry: int, cur: int) -> int {
    let denom = FIXED_SCALE - cur;
    if denom <= 0 {
        0
    } else {
        spec_normalized_size((close * entry) / denom, 0)
    }
}

/// Compute the size of the forced market-exit order from the configured
/// close size, the initial entry price and the currently observed price.
pub fn exit_order_size(close_size: Fixed, entry_price: Fixed, current_price: Fixed) -> (r: Fixed)
    requires
        0 <= close_size.raw <= MAX_QTY_RAW,
        0 <= entry_price.raw <= FIXED_SCALE,
        0 <= current_price.raw,
    ensures
        r.raw == spec_exit_size(
            close_size.raw as int,
            entry_price.raw as int,
            current_price.raw as int,
        ),
{
    let denom: i64 = FIXED_SCALE - current_price.raw;
    if denom <= 0 {
        return Fixed { raw: 0 };
    }
    proof {
        vstd::arithmetic::mul::lemma_mul_upper_bound(
            close_size.raw as int,
            MAX_QTY_RAW as int,
            entry_price.raw as int,
            FIXED_SCALE as int,
        );
        vstd::arithmetic::mul::lemma_mul_nonnegative(
            close_size.raw as int,
            entry_price.raw as int,
        );
        assert(MAX_QTY_RAW * FIXED_SCALE == 9_000_000_000_000_000_000int);
    }
    let num: i128 = (close_size.raw as i128) * (entry_price.raw as i128);
    let q: i128 = num / (denom as i128);
    proof {
        lemma_trunc_nonneg(num as int, denom as int);
        vstd::arithmetic::div_mod::lemma_div_is_ordered_by_denominator(num as int, 1, denom as int);
        vstd::arithmetic::div_mod::lemma_div_basics(num as int);
        lemma_trunc_nonneg(q as int, 10_000);
        reveal_with_fuel(pow10, 5);
        assert(pow10(4) == 10_000);
    }
    let t: i128 = (q / 10_000) * 10_000;
    if t <= 0 {
        Fixed { raw: 0 }
    } else {
        Fixed { raw: t as i64 }
    }
}

} // verus!
