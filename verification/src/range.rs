//! The range mapper: a coordinate, a pair of source bounds in either order
//! and a resolution give a control value between 0 and the resolution.

use vstd::arithmetic::div_mod::{lemma_div_is_ordered, lemma_div_multiples_vanish, lemma_div_pos_is_pos};
use vstd::arithmetic::mul::{lemma_mul_inequality, lemma_mul_nonnegative};
use vstd::prelude::*;

verus! {

/// `x` saturated into the closed interval from `floor` to `ceiling`.
pub open spec fn clamp(x: int, floor: int, ceiling: int) -> int {
    if x < floor {
        floor
    } else if x > ceiling {
        ceiling
    } else {
        x
    }
}

/// The position of `x` between `floor` and `ceiling`, scaled to `0..=max` and
/// rounded toward zero. Meant for `floor < ceiling`.
pub open spec fn scale(x: int, floor: int, ceiling: int, max: int) -> int {
    (clamp(x, floor, ceiling) - floor) * max / (ceiling - floor)
}

/// The control value of `x` for the bounds `low` and `high`.
///
/// Ascending bounds map `low` to 0 and `high` to `max`. Descending bounds
/// flip the direction: the smaller bound is still the floor of the range, and
/// the scaled value is subtracted from `max`. A zero-width range maps
/// everything to 0.
pub open spec fn remap_spec(x: int, low: int, high: int, max: int) -> int {
    if low == high {
        0
    } else if low < high {
        scale(x, low, high, max)
    } else {
        max - scale(x, high, low, max)
    }
}

/// The scaled value lies between 0 and `max`.
pub proof fn lemma_scale_bounds(x: int, floor: int, ceiling: int, max: int)
    requires
        floor < ceiling,
        0 <= max,
    ensures
        0 <= scale(x, floor, ceiling, max) <= max,
{
    let offset = clamp(x, floor, ceiling) - floor;
    let width = ceiling - floor;
    lemma_mul_nonnegative(offset, max);
    lemma_div_pos_is_pos(offset * max, width);
    lemma_mul_inequality(offset, width, max);
    lemma_div_is_ordered(offset * max, width * max, width);
    lemma_div_multiples_vanish(max, width);
}

/// The scaled value does not decrease when the coordinate grows.
pub proof fn lemma_scale_monotonic(x1: int, x2: int, floor: int, ceiling: int, max: int)
    requires
        floor < ceiling,
        0 <= max,
        x1 <= x2,
    ensures
        scale(x1, floor, ceiling, max) <= scale(x2, floor, ceiling, max),
{
    let o1 = clamp(x1, floor, ceiling) - floor;
    let o2 = clamp(x2, floor, ceiling) - floor;
    lemma_mul_inequality(o1, o2, max);
    lemma_div_is_ordered(o1 * max, o2 * max, ceiling - floor);
}

/// The control value never leaves `0..=max`, whatever the coordinate and
/// whichever way the bounds run.
pub proof fn remap_stays_in_range(x: int, low: int, high: int, max: int)
    requires
        0 <= max,
    ensures
        0 <= remap_spec(x, low, high, max) <= max,
{
    if low < high {
        lemma_scale_bounds(x, low, high, max);
    } else if high < low {
        lemma_scale_bounds(x, high, low, max);
    }
}

/// Coordinates outside the source range saturate: a coordinate maps to the
/// same control value as the nearest point of the range.
pub proof fn remap_saturates(x: int, low: int, high: int, max: int)
    ensures
        low <= high ==> remap_spec(x, low, high, max) == remap_spec(
            clamp(x, low, high),
            low,
            high,
            max,
        ),
        high <= low ==> remap_spec(x, low, high, max) == remap_spec(
            clamp(x, high, low),
            low,
            high,
            max,
        ),
{
}

/// With ascending bounds the control value is non-decreasing in the
/// coordinate; with descending bounds it is non-increasing.
pub proof fn remap_is_monotonic(x1: int, x2: int, low: int, high: int, max: int)
    requires
        0 <= max,
        x1 <= x2,
    ensures
        low < high ==> remap_spec(x1, low, high, max) <= remap_spec(x2, low, high, max),
        low > high ==> remap_spec(x1, low, high, max) >= remap_spec(x2, low, high, max),
{
    if low < high {
        lemma_scale_monotonic(x1, x2, low, high, max);
    } else if high < low {
        lemma_scale_monotonic(x1, x2, high, low, max);
    }
}

/// The first bound maps to 0 and the second to `max`, in either order. On a
/// descending range this puts `max` at the floor of the range and 0 at its
/// ceiling: the reverse of an ascending one.
pub proof fn remap_hits_endpoints(low: int, high: int, max: int)
    requires
        low != high,
    ensures
        remap_spec(low, low, high, max) == 0,
        remap_spec(high, low, high, max) == max,
        low < high ==> scale(low, low, high, max) == 0 && scale(high, low, high, max) == max,
        low > high ==> scale(high, high, low, max) == 0 && scale(low, high, low, max) == max,
{
    let floor = if low < high { low } else { high };
    let ceiling = if low < high { high } else { low };
    let width = ceiling - floor;
    assert(scale(floor, floor, ceiling, max) == 0) by {
        assert((floor - floor) * max == 0) by (nonlinear_arith);
        assert(0int / width == 0) by (nonlinear_arith)
            requires
                width > 0,
        ;
    }
    assert(scale(ceiling, floor, ceiling, max) == max) by {
        lemma_div_multiples_vanish(max, width);
    }
}

/// Maps `x` from the source range between `low` and `hi` (in either order)
/// to `0..=max`, saturating outside the range.
pub fn remap(x: i64, low: i64, hi: i64, max: i32) -> (out: i32)
    requires
        0 <= max,
    ensures
        out == remap_spec(x as int, low as int, hi as int, max as int),
        0 <= out <= max,
{
    if low == hi {
        return 0;
    }
    let rev: bool = hi < low;
    let floor: i64 = if rev { hi } else { low };
    let ceiling: i64 = if rev { low } else { hi };
    let clamped: i64 = if x < floor { floor } else if x > ceiling { ceiling } else { x };
    let offset: i128 = clamped as i128 - floor as i128;
    let width: i128 = ceiling as i128 - floor as i128;
    // The offset is below 2^64 and the resolution below 2^31, so the product
    // fits in 128 bits; the quotient is at most the resolution.
    assert(0 <= offset * max < 0x8000_0000_0000_0000_0000_0000) by (nonlinear_arith)
        requires
            0 <= offset < 0x1_0000_0000_0000_0000,
            0 <= max < 0x8000_0000,
    ;
    proof {
        lemma_scale_bounds(x as int, floor as int, ceiling as int, max as int);
    }
    let scaled: i128 = offset * (max as i128) / width;
    let out: i32 = scaled as i32;
    if rev {
        max - out
    } else {
        out
    }
}

} // verus!
