use mcp_math::normalize::normalize;

#[test]
fn nested_fraction_reaches_fixed_point() {
    assert_eq!(normalize("\\frac{\\frac{1}{2}}{4}"), "((((1)/(2)))/(4))");
}

#[test]
fn simple_fraction() {
    assert_eq!(normalize("\\frac{1}{2}"), "((1)/(2))");
}

#[test]
fn sqrt_rewrite() {
    assert_eq!(normalize("\\sqrt{4} + 2"), "sqrt(4) + 2");
}

#[test]
fn pi_substitution() {
    let out = normalize("2 * \\pi");
    assert_eq!(out, "2 * pi");
    assert!(out.contains("pi"));
    assert!(!out.contains('\\'));
}

#[test]
fn multiplication_signs() {
    assert_eq!(normalize("2 \\cdot 3 \\times 4"), "2 * 3 * 4");
}

#[test]
fn scoped_parentheses() {
    assert_eq!(normalize("\\left(1 + 2\\right)"), "(1 + 2)");
}

#[test]
fn residual_braces_become_parentheses() {
    assert_eq!(normalize("x^{2}"), "x^(2)");
}

#[test]
fn clean_input_unchanged() {
    assert_eq!(normalize("2+3"), "2+3");
}

#[test]
fn empty_input_unchanged() {
    assert_eq!(normalize(""), "");
}

#[test]
fn unbalanced_braces_best_effort() {
    assert_eq!(normalize("\\frac{1}{2"), "\\frac(1)(2");
}
