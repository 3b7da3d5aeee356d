use mcp_math::calc::calculate;

#[test]
fn simple_arithmetic_passthrough() {
    let v = calculate("2 + 3 * 4").unwrap();
    assert_eq!(f64::from_bits(v.bits), 14.0);
    assert_eq!(v.text, "14");
}

#[test]
fn sqrt_plus_constant() {
    let v = calculate("\\sqrt{4} + 2").unwrap();
    assert_eq!(f64::from_bits(v.bits), 4.0);
}

#[test]
fn nested_fraction_value() {
    let v = calculate("\\frac{\\frac{1}{2}}{4}").unwrap();
    assert_eq!(f64::from_bits(v.bits), 0.125);
}

#[test]
fn pi_value() {
    let v = calculate("2 * \\pi").unwrap();
    assert!((f64::from_bits(v.bits) - 2.0 * std::f64::consts::PI).abs() < 1e-12);
}

#[test]
fn sqrt_of_negative_rejected() {
    let e = calculate("\\sqrt{-1}").unwrap_err();
    assert_eq!(e, "invalid calculation result");
}

#[test]
fn division_by_zero_rejected() {
    let e = calculate("1/0").unwrap_err();
    assert_eq!(e, "invalid calculation result");
}

#[test]
fn unparsable_expression_wrapped() {
    let e = calculate("2 +").unwrap_err();
    assert!(e.starts_with("math expression error: "));
}

#[test]
fn whitespace_only_expression_rejected() {
    let e = calculate(" \t\r\n").unwrap_err();
    assert_eq!(e, "math expression error: empty expression");
}

#[test]
fn empty_expression_rejected() {
    let e = calculate("").unwrap_err();
    assert_eq!(e, "math expression error: empty expression");
}
