//! Saturating arithmetic over the exact bit-widths the ledger uses.
//!
//! The ledger clamps instead of wrapping or erroring: elapsed time never goes
//! negative, accrued points never wrap past the counter's maximum, and the
//! staked-asset count never underflows below zero.

use vstd::prelude::*;

verus! {

/// Seconds in one day; the accrual granularity.
pub const SECONDS_PER_DAY: i64 = 86400;

/// Elapsed time between a past timestamp and now: `max(0, now - then)`,
/// clamped above at the largest representable value.
pub open spec fn spec_elapsed(now: int, then: int) -> int {
    if now - then < 0 {
        0
    } else if now - then > i64::MAX {
        i64::MAX as int
    } else {
        now - then
    }
}

/// The freeze period in seconds: whole days times `SECONDS_PER_DAY`.
/// With a 32-bit day count the product always fits in 64 signed bits,
/// so the clamp of a saturating multiply can never engage.
pub open spec fn spec_freeze_seconds(freeze_period_days: int) -> int {
    freeze_period_days * (SECONDS_PER_DAY as int)
}

/// Points earned for an elapsed time: whole elapsed days (partial days earn
/// nothing) times the per-day rate.
pub open spec fn spec_points_earned(elapsed: int, rate: int) -> int {
    (elapsed / (SECONDS_PER_DAY as int)) * rate
}

/// The points counter after accrual: clamped at the counter's maximum,
/// never wrapping to a smaller value.
pub open spec fn spec_points_after(points: int, earned: int) -> int {
    if points + earned > u32::MAX {
        u32::MAX as int
    } else {
        points + earned
    }
}

/// The staked-asset count after one withdrawal: `max(0, count - 1)`.
pub open spec fn spec_amount_after(amount: int) -> int {
    if amount == 0 {
        0
    } else {
        amount - 1
    }
}

/// Computes the clamped elapsed time `max(0, now - then)`.
pub fn elapsed_seconds(now: i64, then: i64) -> (r: i64)
    ensures
        r == spec_elapsed(now as int, then as int),
        0 <= r,
{
    let wide: i128 = (now as i128) - (then as i128);
    if wide < 0 {
        0
    } else if wide > (i64::MAX as i128) {
        i64::MAX
    } else {
        wide as i64
    }
}

/// Computes the freeze period in seconds from a day count.
pub fn freeze_seconds(freeze_period_days: u32) -> (r: i64)
    ensures
        r == spec_freeze_seconds(freeze_period_days as int),
        0 <= r,
{
    proof {
        assert((freeze_period_days as int) * (SECONDS_PER_DAY as int) <= u32::MAX * (
        SECONDS_PER_DAY as int)) by (nonlinear_arith)
            requires
                freeze_period_days <= u32::MAX,
        ;
        assert((freeze_period_days as int) * (SECONDS_PER_DAY as int) >= 0) by (nonlinear_arith)
            requires
                freeze_period_days >= 0,
        ;
    }
    (freeze_period_days as i64) * SECONDS_PER_DAY
}

/// Computes the points earned for an elapsed time at a per-day rate.
pub fn points_earned(elapsed: i64, rate: u8) -> (r: i64)
    requires
        elapsed >= 0,
    ensures
        r == spec_points_earned(elapsed as int, rate as int),
        0 <= r,
{
    let days: i64 = elapsed / SECONDS_PER_DAY;
    proof {
        assert(0 <= elapsed as int / (SECONDS_PER_DAY as int) <= elapsed as int) by (
        nonlinear_arith)
            requires
                0 <= elapsed as int,
        ;
        assert((elapsed as int / (SECONDS_PER_DAY as int)) * (rate as int) <= (elapsed as int / (
        SECONDS_PER_DAY as int)) * 255 <= ((i64::MAX as int) / (SECONDS_PER_DAY as int)) * 255)
            by (nonlinear_arith)
            requires
                0 <= elapsed as int / (SECONDS_PER_DAY as int) <= (i64::MAX as int) / (
                SECONDS_PER_DAY as int),
                0 <= rate as int <= 255,
        ;
        assert(0 <= (elapsed as int / (SECONDS_PER_DAY as int)) * (rate as int)) by (
        nonlinear_arith)
            requires
                0 <= elapsed as int / (SECONDS_PER_DAY as int),
                0 <= rate as int,
        ;
        assert(elapsed as int / (SECONDS_PER_DAY as int) <= (i64::MAX as int) / (SECONDS_PER_DAY
            as int)) by (nonlinear_arith)
            requires
                0 <= elapsed <= i64::MAX,
        ;
    }
    days * (rate as i64)
}

/// Adds earned points to the counter, clamping at the counter's maximum.
pub fn points_after(points: u32, earned: i64) -> (r: u32)
    requires
        earned >= 0,
    ensures
        r == spec_points_after(points as int, earned as int),
{
    let wide: i128 = (points as i128) + (earned as i128);
    if wide > (u32::MAX as i128) {
        u32::MAX
    } else {
        wide as u32
    }
}

/// Decrements the staked-asset count, never underflowing below zero.
pub fn amount_after(amount: u8) -> (r: u8)
    ensures
        r == spec_amount_after(amount as int),
{
    if amount == 0 {
        0
    } else {
        amount - 1
    }
}

} // verus!
