//! Mapping controller values to output levels, and the actuator's
//! flush decision.
//!
//! The output level is carried as an integer number of tenths (`35`
//! stands for a level of 3.5), so the whole mapping and the actuator's
//! change detection are exact integer computations. Only the final call
//! into the external sink turns the tenths into a decimal level.

use vstd::arithmetic::div_mod::lemma_div_is_ordered;
use vstd::prelude::*;

verus! {

/// The largest level, in tenths, that any in-range controller value maps to.
pub const VOL_TENTHS_MAX: u8 = 70;

/// The actuator's initial "last applied" placeholder, in tenths. It lies
/// outside the reachable range `0..=70`, so the first flush always applies.
pub const VOL_SENTINEL_TENTHS: u8 = 110;

/// The level, in tenths, that a controller value maps to: the nearest
/// integer to `70 * v / 127` (so the level itself is `v / 127 * 7.0`
/// rounded to one decimal place). `(140 * v + 127) / 254` is exactly that
/// rounding: no in-range value lands on a half-way tie.
pub open spec fn vol_tenths_spec(v: int) -> int {
    (v * 140 + 127) / 254
}

/// The mapped level grows with the controller value.
pub proof fn lemma_vol_tenths_monotone(v1: int, v2: int)
    requires
        0 <= v1 <= v2,
    ensures
        vol_tenths_spec(v1) <= vol_tenths_spec(v2),
{
    lemma_div_is_ordered(v1 * 140 + 127, v2 * 140 + 127, 254);
}

/// Every in-range controller value maps into `0..=70` tenths, i.e. a
/// level between 0.0 and 7.0; in particular it never equals the
/// actuator's sentinel.
pub proof fn lemma_vol_tenths_range(v: int)
    requires
        0 <= v <= 127,
    ensures
        0 <= vol_tenths_spec(v) <= 70,
        vol_tenths_spec(v) != VOL_SENTINEL_TENTHS,
{
    lemma_div_is_ordered(127, v * 140 + 127, 254);
    lemma_div_is_ordered(v * 140 + 127, 17907, 254);
}

/// Map a controller value to an output level in tenths.
pub fn vol_tenths(val: u8) -> (t: u8)
    ensures
        t == vol_tenths_spec(val as int),
        val <= 127 ==> 0 <= t <= 70,
{
    proof {
        // Even for an out-of-range byte the result stays small:
        // (255 * 140 + 127) / 254 == 141, so the cast below is exact.
        lemma_div_is_ordered(val as int * 140 + 127, 35827int, 254);
        if val <= 127 {
            lemma_vol_tenths_range(val as int);
        }
    }
    (((val as u32) * 140 + 127) / 254) as u8
}

/// One iteration of the actuator's decision: the sink is told the target
/// level exactly when it differs from the last level actually applied.
pub fn flush_step(last_applied: u8, target: u8) -> (r: Option<u8>)
    ensures
        target != last_applied ==> r == Some(target),
        target == last_applied ==> r is None,
{
    if target != last_applied {
        Some(target)
    } else {
        None
    }
}

} // verus!
