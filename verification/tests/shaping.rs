use mousestick::shape::shape_circular;
use mousestick::shape::shape_linear;
use mousestick::shape::alert_for;
use mousestick::shape::saturate_i16;

// Linear shaping is the identity scale within the unit box: 0.5 of full
// deflection on x and -0.5 on y map to exactly (16384, -16384).
#[test]
fn linear_identity_in_unit_box() {
    assert_eq!(shape_linear(16384, -16384), (16384, -16384));
    assert_eq!(shape_linear(0, 0), (0, 0));
    assert_eq!(shape_linear(-32768, 32767), (-32768, 32767));
}

// Linear shaping with overshoot 2.0 on x: the dominant axis lands at unit
// magnitude, 32768 capped to the largest axis value.
#[test]
fn linear_overshoot_caps_dominant_axis() {
    assert_eq!(shape_linear(65536, 0), (32767, 0));
    assert_eq!(shape_linear(-65536, 0), (-32768, 0));
}

// Linear shaping with overshoot preserves direction: (2.0, 1.0) rescales
// so x is full and y half.
#[test]
fn linear_overshoot_preserves_direction() {
    assert_eq!(shape_linear(65536, 32768), (32767, 16384));
    assert_eq!(shape_linear(32768, -65536), (16384, -32768));
}

// Circularized shaping applies no clamping of the radius before the
// saturating conversion: (1.0, 1.0) would scale to 32768 on both axes and
// the saturating cast caps each at 32767 — no wraparound.
#[test]
fn circular_saturates_instead_of_wrapping() {
    assert_eq!(shape_circular(32768, 32768), (32767, 32767));
    assert_eq!(shape_circular(98304, -98304), (32767, -32768));
    assert_eq!(shape_circular(23170, 23170), (23170, 23170));
}

#[test]
fn saturation_bounds() {
    assert_eq!(saturate_i16(40000), 32767);
    assert_eq!(saturate_i16(-40000), -32768);
    assert_eq!(saturate_i16(-32768), -32768);
    assert_eq!(saturate_i16(1234), 1234);
}

// Oversteer alert at threshold 1.5: any total with max(|x|, |y|) at or
// above 1.5 of full deflection trips it.
#[test]
fn alert_threshold() {
    assert!(alert_for(49152, 0, 49152));
    assert!(alert_for(0, -49153, 49152));
    assert!(!alert_for(49151, 49151, 49152));
    assert!(!alert_for(0, 0, 49152));
}
