use psx::divider::divide;
use psx::saturate::{mac32_overflow, saturate11, saturate16, to_otz, truncate44};

#[test]
fn saturate16_keeps_the_largest_value() {
    assert_eq!(saturate16(32767, false, 0), (32767, 0));
}

#[test]
fn saturate16_clamps_above_and_flags() {
    assert_eq!(saturate16(32768, false, 0), (32767, 1 << 24));
    assert_eq!(saturate16(32768, true, 2), (32767, 1 << 22));
}

#[test]
fn saturate16_clamps_negative_to_zero_in_clamp_mode() {
    assert_eq!(saturate16(-1, true, 0), (0, 1 << 24));
    assert_eq!(saturate16(-1, false, 0), (-1, 0));
    assert_eq!(saturate16(-40000, false, 1), (-32768, 1 << 23));
}

#[test]
fn saturate11_clamps_to_screen_range() {
    assert_eq!(saturate11(1023, 0), (1023, 0));
    assert_eq!(saturate11(1024, 0), (1023, 1 << 14));
    assert_eq!(saturate11(-1025, 1), (-1024, 1 << 13));
    assert_eq!(saturate11(-1024, 1), (-1024, 0));
}

#[test]
fn truncate44_keeps_values_in_range() {
    let max: i64 = (1 << 43) - 1;
    let min: i64 = -(1 << 43);
    for lane in 0..3u8 {
        assert_eq!(truncate44(max, lane), (max, 0));
        assert_eq!(truncate44(min, lane), (min, 0));
        assert_eq!(truncate44(0, lane), (0, 0));
        assert_eq!(truncate44(-5, lane), (-5, 0));
    }
}

#[test]
fn truncate44_wraps_above_range_and_flags_the_lane() {
    assert_eq!(truncate44(1 << 43, 0), (-(1 << 43), 1 << 30));
    assert_eq!(truncate44(1 << 43, 1), (-(1 << 43), 1 << 29));
    assert_eq!(truncate44((1 << 43) + 5, 2), (-(1 << 43) + 5, 1 << 28));
}

#[test]
fn truncate44_is_idempotent() {
    for v in [(1i64 << 43) + 12345, -(1i64 << 45) + 7, i64::MAX, i64::MIN, 99] {
        let (once, _) = truncate44(v, 0);
        let (twice, flag) = truncate44(once, 0);
        assert_eq!(once, twice);
        assert_eq!(flag, 0);
    }
}

#[test]
fn truncate44_flags_far_below_range() {
    let v: i64 = -(1 << 44) - 1;
    assert_eq!(truncate44(v, 0), (v + (1 << 44), 1 << 27));
    assert_eq!(truncate44(v, 2).1, 1 << 25);
}

#[test]
fn mac32_overflow_flags_both_sides() {
    assert_eq!(mac32_overflow(0x7fff_ffff), 0);
    assert_eq!(mac32_overflow(0x8000_0000), 1 << 16);
    assert_eq!(mac32_overflow(-0x8000_0000), 0);
    assert_eq!(mac32_overflow(-0x8000_0001), 1 << 15);
}

#[test]
fn to_otz_divides_and_clamps() {
    assert_eq!(to_otz(60), (0, 0));
    assert_eq!(to_otz(4096 * 7 + 100), (7, 0));
    assert_eq!(to_otz(-1), (0, 1 << 18));
    assert_eq!(to_otz(0x1_0000 * 4096), (0xffff, 1 << 18));
}

#[test]
fn divide_matches_reference_values() {
    assert_eq!(divide(100, 200), 32768);
    assert_eq!(divide(100, 100), 65536);
    assert_eq!(divide(1000, 600), 109227);
    assert_eq!(divide(256, 4096), 4096);
    assert_eq!(divide(300, 151), 130204);
    assert_eq!(divide(1, 1), 65536);
}
