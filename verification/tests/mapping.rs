use xygrid::geometry::{map_axis, Bounds, MapMode, PointPx};
use xygrid::param::{normalized_of_plain, preview_plain, ParamHandle, ParamRange, RangeKind};
use xygrid::units::{clamp_normalized, NORM_ONE};

fn continuous(min: i32, max: i32) -> ParamRange {
    ParamRange {
        min,
        max,
        kind: RangeKind::Continuous,
    }
}

fn stepped(min: i32, max: i32) -> ParamRange {
    ParamRange {
        min,
        max,
        kind: RangeKind::Stepped,
    }
}

#[test]
fn continuous_round_trip_is_identity() {
    let r = ParamRange::bipolar();
    for &n in &[0u32, 1, 250_000, 333_333, 500_000, 999_999, NORM_ONE] {
        let plain = preview_plain(&r, n);
        assert_eq!(normalized_of_plain(&r, plain), n);
    }
}

#[test]
fn continuous_round_trip_on_wide_range() {
    let r = continuous(-1_000_000, 1_000_000);
    for &n in &[0u32, 7, 123_456, 987_654, NORM_ONE] {
        let plain = preview_plain(&r, n);
        assert_eq!(normalized_of_plain(&r, plain), n);
    }
}

#[test]
fn continuous_preview_exact_values() {
    let r = ParamRange::bipolar();
    // min + n * (max - min), in ticks: -1.0 maps from 0, 0.0 from the middle.
    assert_eq!(preview_plain(&r, 0), -1_000_000);
    assert_eq!(preview_plain(&r, 250_000), -500_000);
    assert_eq!(preview_plain(&r, 500_000), 0);
    assert_eq!(preview_plain(&r, NORM_ONE), 1_000_000);
}

#[test]
fn repeated_preview_returns_same_plain() {
    let r = stepped(0, 1);
    let first = preview_plain(&r, 437_123);
    for _ in 0..10 {
        assert_eq!(preview_plain(&r, 437_123), first);
    }
}

#[test]
fn stepped_preview_snaps_to_nearest_step() {
    let two = stepped(0, 1);
    assert_eq!(preview_plain(&two, 0), 0);
    assert_eq!(preview_plain(&two, 200_000), 0);
    assert_eq!(preview_plain(&two, 499_999), 0);
    // Ties round up.
    assert_eq!(preview_plain(&two, 500_000), 1_000_000);
    assert_eq!(preview_plain(&two, 800_000), 1_000_000);
    assert_eq!(preview_plain(&two, NORM_ONE), 1_000_000);

    let five = stepped(-2, 2);
    assert_eq!(preview_plain(&five, 0), -2_000_000);
    assert_eq!(preview_plain(&five, 500_000), 0);
    assert_eq!(preview_plain(&five, 600_000), 0);
    assert_eq!(preview_plain(&five, 630_000), 1_000_000);
    assert_eq!(preview_plain(&five, NORM_ONE), 2_000_000);
}

#[test]
fn absolute_mapping_exact_values() {
    assert_eq!(map_axis(MapMode::Absolute, 25, 0, 100), 250_000);
    assert_eq!(map_axis(MapMode::Absolute, 75, 0, 100), 750_000);
    assert_eq!(map_axis(MapMode::Absolute, 50, 0, 100), 500_000);
    assert_eq!(map_axis(MapMode::Absolute, 130, 100, 60), 500_000);
}

#[test]
fn absolute_mapping_clamps_at_source() {
    assert_eq!(map_axis(MapMode::Absolute, -20, 0, 100), 0);
    assert_eq!(map_axis(MapMode::Absolute, 0, 0, 100), 0);
    assert_eq!(map_axis(MapMode::Absolute, 100, 0, 100), NORM_ONE as i64);
    assert_eq!(map_axis(MapMode::Absolute, 250, 0, 100), NORM_ONE as i64);
}

#[test]
fn degenerate_axis_maps_to_zero() {
    assert_eq!(map_axis(MapMode::Absolute, 40, 0, 0), 0);
    assert_eq!(map_axis(MapMode::RelativeFromCenter, 40, 0, 0), 0);
    assert_eq!(map_axis(MapMode::RelativeFromCenter, 40, 0, 1), 0);
}

#[test]
fn relative_mapping_is_centered_and_unclamped() {
    // Center of {origin 0, size 100} is 50; half size is 50.
    assert_eq!(map_axis(MapMode::RelativeFromCenter, 50, 0, 100), 0);
    assert_eq!(map_axis(MapMode::RelativeFromCenter, 75, 0, 100), 500_000);
    assert_eq!(map_axis(MapMode::RelativeFromCenter, 25, 0, 100), -500_000);
    assert_eq!(map_axis(MapMode::RelativeFromCenter, 100, 0, 100), NORM_ONE as i64);
    // Outside the bounds the raw value keeps growing.
    assert_eq!(map_axis(MapMode::RelativeFromCenter, 150, 0, 100), 2_000_000);
    assert_eq!(map_axis(MapMode::RelativeFromCenter, -50, 0, 100), -2_000_000);
}

#[test]
fn clamping_happens_at_the_write_boundary() {
    assert_eq!(clamp_normalized(-2_000_000), 0);
    assert_eq!(clamp_normalized(-1), 0);
    assert_eq!(clamp_normalized(0), 0);
    assert_eq!(clamp_normalized(437), 437);
    assert_eq!(clamp_normalized(NORM_ONE as i64), NORM_ONE);
    assert_eq!(clamp_normalized(2_000_000), NORM_ONE);
}

#[test]
fn bounds_hit_test_is_half_open() {
    let b = Bounds {
        x: 0,
        y: 0,
        width: 100,
        height: 100,
    };
    assert!(b.contains(&PointPx { x: 0, y: 0 }));
    assert!(b.contains(&PointPx { x: 99, y: 99 }));
    assert!(!b.contains(&PointPx { x: 100, y: 50 }));
    assert!(!b.contains(&PointPx { x: 50, y: 100 }));
    assert!(!b.contains(&PointPx { x: -1, y: 50 }));
}

#[test]
fn range_well_formedness_check() {
    assert!(ParamRange::bipolar().is_wf());
    assert!(!continuous(3, 3).is_wf());
    assert!(!continuous(5, -5).is_wf());
    let h = ParamHandle {
        id: 7,
        range: ParamRange::bipolar(),
        current_plain: 0,
    };
    assert!(h.is_wf());
}
