use midi2vol_mac::vol::{flush_step, vol_tenths, VOL_SENTINEL_TENTHS, VOL_TENTHS_MAX};

#[test]
fn zero_maps_to_zero() {
    assert_eq!(vol_tenths(0), 0);
}

#[test]
fn mid_value_maps_to_three_point_five() {
    // round(64 / 127 * 70) = round(35.27) = 35 tenths, a level of 3.5.
    assert_eq!(vol_tenths(64), 35);
    assert_eq!(vol_tenths(64) as f32 / 10.0, 3.5);
}

#[test]
fn full_value_maps_to_seven() {
    assert_eq!(vol_tenths(127), 70);
    assert_eq!(vol_tenths(127) as f32 / 10.0, 7.0);
}

#[test]
fn matches_float_rounding_everywhere() {
    // The integer mapping agrees with round(v / 127 * 70) computed in
    // floating point, for every in-range controller value.
    for v in 0u8..=127 {
        let reference = (v as f32 / 127.0 * 70.0).round() / 10.0;
        assert_eq!(vol_tenths(v) as f32 / 10.0, reference);
    }
}

#[test]
fn range_and_monotone() {
    let mut prev: u8 = 0;
    for v in 0u8..=127 {
        let t = vol_tenths(v);
        assert!(t <= VOL_TENTHS_MAX);
        assert!(t >= prev);
        prev = t;
    }
}

#[test]
fn sentinel_is_never_reached() {
    for v in 0u8..=127 {
        assert_ne!(vol_tenths(v), VOL_SENTINEL_TENTHS);
    }
}

#[test]
fn flush_applies_only_on_change() {
    assert_eq!(flush_step(35, 35), None);
    assert_eq!(flush_step(35, 70), Some(70));
    assert_eq!(flush_step(0, 0), None);
}

#[test]
fn first_flush_always_applies() {
    // Starting from the sentinel, any reachable target differs.
    for v in 0u8..=127 {
        assert_eq!(flush_step(VOL_SENTINEL_TENTHS, vol_tenths(v)), Some(vol_tenths(v)));
    }
}
