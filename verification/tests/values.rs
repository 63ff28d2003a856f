//! Tests of the fixed-point value codec and arithmetic.

use mod_prometheus::value::Value;
use mod_prometheus::value::SCALE;
use mod_prometheus::text::parse_i64;

#[test]
fn parse_whole_number() {
    assert_eq!(Value::parse("5").unwrap().raw(), 5 * SCALE);
}

#[test]
fn parse_fractional_number() {
    assert_eq!(Value::parse("3.5").unwrap().raw(), 3_500_000);
}

#[test]
fn parse_negative_number() {
    assert_eq!(Value::parse("-1").unwrap().raw(), -SCALE);
}

#[test]
fn parse_plus_sign() {
    assert_eq!(Value::parse("+2").unwrap().raw(), 2 * SCALE);
}

#[test]
fn parse_smallest_fraction() {
    assert_eq!(Value::parse("0.000001").unwrap().raw(), 1);
}

#[test]
fn parse_rejects_garbage() {
    assert!(Value::parse("").is_none());
    assert!(Value::parse("abc").is_none());
    assert!(Value::parse("1.").is_none());
    assert!(Value::parse(".5").is_none());
    assert!(Value::parse("-").is_none());
    assert!(Value::parse("1..2").is_none());
    assert!(Value::parse("1 2").is_none());
}

#[test]
fn parse_rejects_too_many_fraction_digits() {
    assert!(Value::parse("0.1234567").is_none());
    assert_eq!(Value::parse("0.123456").unwrap().raw(), 123_456);
}

#[test]
fn parse_rejects_out_of_range() {
    assert!(Value::parse("99999999999999999999").is_none());
    // The largest representable whole numbers still parse.
    assert_eq!(Value::parse("9223372036854").unwrap().raw(), 9_223_372_036_854_000_000);
}

#[test]
fn format_whole_number() {
    assert_eq!(Value::from_whole(5).to_text(), "5");
    assert_eq!(Value::from_whole(0).to_text(), "0");
    assert_eq!(Value::from_whole(-1).to_text(), "-1");
}

#[test]
fn format_trims_trailing_zeros() {
    assert_eq!(Value::from_raw(1_500_000).to_text(), "1.5");
    assert_eq!(Value::from_raw(1_230_000).to_text(), "1.23");
    assert_eq!(Value::from_raw(-500_000).to_text(), "-0.5");
    assert_eq!(Value::from_raw(1).to_text(), "0.000001");
}

#[test]
fn format_parse_round_trip() {
    for raw in [0i64, 1, -1, 5_000_000, -3_250_000, 123_456_789, -987_654_321] {
        let v = Value::from_raw(raw);
        let text = v.to_text();
        assert_eq!(Value::parse(&text).unwrap().raw(), raw, "round trip of {}", text);
    }
}

#[test]
fn add_saturates_at_the_top() {
    let top = Value::from_raw(i64::MAX);
    assert_eq!(top.add(Value::one()).raw(), i64::MAX);
    let bottom = Value::from_raw(i64::MIN);
    assert_eq!(bottom.sub(Value::one()).raw(), i64::MIN);
}

#[test]
fn add_and_sub_are_exact_in_range() {
    let a = Value::from_whole(2);
    let b = Value::from_raw(500_000);
    assert_eq!(a.add(b).raw(), 2_500_000);
    assert_eq!(a.sub(b).raw(), 1_500_000);
}

#[test]
fn ratio_rounds_toward_zero() {
    let two = Value::from_whole(2);
    let three = Value::from_whole(3);
    assert_eq!(Value::ratio(two, three).raw(), 666_666);
    assert_eq!(Value::ratio(three, three).raw(), SCALE);
}

#[test]
fn parse_i64_bounds() {
    assert_eq!(parse_i64("0"), Some(0));
    assert_eq!(parse_i64("-7"), Some(-7));
    assert_eq!(parse_i64("9223372036854775807"), Some(i64::MAX));
    assert_eq!(parse_i64("-9223372036854775808"), Some(i64::MIN));
    assert_eq!(parse_i64("9223372036854775808"), None);
    assert_eq!(parse_i64("12.5"), None);
    assert_eq!(parse_i64(""), None);
}
