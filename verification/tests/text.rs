use perceptron_select::text::{decimal_string, push_decimal};

#[test]
fn zero_is_one_digit() {
    assert_eq!(decimal_string(0), "0");
}

#[test]
fn digits_come_most_significant_first() {
    assert_eq!(decimal_string(7), "7");
    assert_eq!(decimal_string(10), "10");
    assert_eq!(decimal_string(1234567890), "1234567890");
    assert_eq!(decimal_string(1000), "1000");
}

#[test]
fn the_largest_number_is_rendered_in_full() {
    assert_eq!(decimal_string(u128::MAX), format!("{}", u128::MAX));
    assert_eq!(decimal_string(u128::MAX), "340282366920938463463374607431768211455");
}

#[test]
fn push_decimal_appends_to_what_is_there() {
    let mut out = String::from("n = ");
    push_decimal(&mut out, 42);
    assert_eq!(out, "n = 42");
    push_decimal(&mut out, 0);
    assert_eq!(out, "n = 420");
}
