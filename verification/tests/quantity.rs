use smart_parking::quantity::{day_count, push_dec};

#[test]
fn negative_quantity_clamps_to_zero() {
    assert_eq!(day_count("-5"), 0);
    assert_eq!(day_count("-0.1"), 0);
    assert_eq!(day_count("-"), 0);
}

#[test]
fn plain_integers_parse() {
    assert_eq!(day_count("0"), 0);
    assert_eq!(day_count("5"), 5);
    assert_eq!(day_count("42"), 42);
    assert_eq!(day_count("+7"), 7);
    assert_eq!(day_count("007"), 7);
}

#[test]
fn fractions_round_to_nearest_day() {
    assert_eq!(day_count("2.4"), 2);
    assert_eq!(day_count("2.5"), 3);
    assert_eq!(day_count("0.4"), 0);
    assert_eq!(day_count("0.5"), 1);
    assert_eq!(day_count(".5"), 1);
    assert_eq!(day_count("12."), 12);
    assert_eq!(day_count("1.23"), 1);
}

#[test]
fn malformed_quantities_count_zero() {
    assert_eq!(day_count(""), 0);
    assert_eq!(day_count("abc"), 0);
    assert_eq!(day_count("1e3"), 0);
    assert_eq!(day_count("1.5.2"), 0);
    assert_eq!(day_count("."), 0);
    assert_eq!(day_count("+"), 0);
    assert_eq!(day_count("3 days"), 0);
}

#[test]
fn oversized_quantities_count_zero() {
    // Twenty significant digits exceed the supported width.
    assert_eq!(day_count("10000000000000000000"), 0);
    // Nineteen digits still fit.
    assert_eq!(day_count("9999999999999999999"), 9999999999999999999);
    // Leading zeros do not count against the width.
    assert_eq!(day_count("0009999999999999999999"), 9999999999999999999);
}

#[test]
fn decimal_rendering_matches() {
    let mut out = Vec::new();
    push_dec(&mut out, 0);
    assert_eq!(out, b"0");
    let mut out2 = Vec::new();
    push_dec(&mut out2, 12345);
    assert_eq!(out2, b"12345");
    let mut out3 = vec![b'x'];
    push_dec(&mut out3, 90);
    assert_eq!(out3, b"x90");
}
