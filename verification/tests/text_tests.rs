use telemetry_node::telemetry::{format_payload, SensorReading};
use telemetry_node::text::{format_tenths, u32_decimal};

#[test]
fn tenths_keep_one_fractional_digit() {
    assert_eq!(format_tenths(235), "23.5");
    assert_eq!(format_tenths(612), "61.2");
    assert_eq!(format_tenths(0), "0.0");
    assert_eq!(format_tenths(9), "0.9");
    assert_eq!(format_tenths(10), "1.0");
    assert_eq!(format_tenths(1000), "100.0");
}

#[test]
fn negative_tenths_carry_a_sign() {
    assert_eq!(format_tenths(-5), "-0.5");
    assert_eq!(format_tenths(-235), "-23.5");
    assert_eq!(format_tenths(-32768), "-3276.8");
    assert_eq!(format_tenths(i32::MIN), "-214748364.8");
}

#[test]
fn decimal_digits_have_no_leading_zero() {
    assert_eq!(u32_decimal(0), "0");
    assert_eq!(u32_decimal(7), "7");
    assert_eq!(u32_decimal(10), "10");
    assert_eq!(u32_decimal(65535), "65535");
    assert_eq!(u32_decimal(u32::MAX), "4294967295");
}

#[test]
fn payload_brackets_both_values() {
    let r = SensorReading { temperature_tenths: 235, humidity_tenths: 612 };
    assert_eq!(format_payload(&r), "[23.5, 61.2]");
    let r = SensorReading { temperature_tenths: -12, humidity_tenths: 0 };
    assert_eq!(format_payload(&r), "[-1.2, 0.0]");
    let r = SensorReading { temperature_tenths: i16::MIN, humidity_tenths: u16::MAX };
    assert_eq!(format_payload(&r), "[-3276.8, 6553.5]");
}
