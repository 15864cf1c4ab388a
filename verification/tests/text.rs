use billbot::text::{decimal_string, money_string};

#[test]
fn decimal_of_zero_is_one_digit() {
    assert_eq!(decimal_string(0), "0");
}

#[test]
fn decimal_has_no_leading_zeros() {
    assert_eq!(decimal_string(7), "7");
    assert_eq!(decimal_string(10), "10");
    assert_eq!(decimal_string(1203), "1203");
}

#[test]
fn decimal_of_the_largest_number() {
    assert_eq!(decimal_string(u128::MAX), "340282366920938463463374607431768211455");
}

#[test]
fn money_of_zero() {
    assert_eq!(money_string(0), "0.00");
}

#[test]
fn money_pads_the_cents() {
    assert_eq!(money_string(5), "0.05");
    assert_eq!(money_string(50), "0.50");
    assert_eq!(money_string(100), "1.00");
    assert_eq!(money_string(286475), "2864.75");
}

#[test]
fn money_below_zero_has_a_minus_sign() {
    assert_eq!(money_string(-5), "-0.05");
    assert_eq!(money_string(-8950), "-89.50");
    assert_eq!(money_string(-4575), "-45.75");
}

#[test]
fn money_at_the_ends_of_the_range() {
    assert_eq!(money_string(i128::MAX), "1701411834604692317316873037158841057.27");
    assert_eq!(money_string(i128::MIN), "-1701411834604692317316873037158841057.28");
}
