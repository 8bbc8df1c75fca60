use notifications::text::{
    decimal_string, joined_string, labelled_string, push_decimal, rated_string,
};

#[test]
fn decimal_of_zero_is_a_single_zero() {
    assert_eq!(decimal_string(0), "0");
}

#[test]
fn decimal_of_single_digits() {
    let expected = ["0", "1", "2", "3", "4", "5", "6", "7", "8", "9"];
    for (n, text) in expected.iter().enumerate() {
        assert_eq!(decimal_string(n as u64), *text);
    }
}

#[test]
fn decimal_has_most_significant_digit_first() {
    assert_eq!(decimal_string(10), "10");
    assert_eq!(decimal_string(50), "50");
    assert_eq!(decimal_string(100), "100");
    assert_eq!(decimal_string(1_234_567_890), "1234567890");
}

#[test]
fn decimal_keeps_inner_and_trailing_zeros() {
    assert_eq!(decimal_string(1_000_000), "1000000");
    assert_eq!(decimal_string(1_002_003), "1002003");
}

#[test]
fn decimal_of_the_largest_counts() {
    assert_eq!(decimal_string(u32::MAX as u64), "4294967295");
    assert_eq!(decimal_string(u64::MAX), "18446744073709551615");
}

#[test]
fn decimal_agrees_with_the_standard_numeral() {
    let mut n: u64 = 1;
    for _ in 0..64 {
        assert_eq!(decimal_string(n), n.to_string());
        assert_eq!(decimal_string(n - 1), (n - 1).to_string());
        n = n.wrapping_mul(3).wrapping_add(7);
        if n == 0 {
            n = 1;
        }
    }
}

#[test]
fn push_decimal_appends_to_what_is_there() {
    let mut text = String::from("n = ");
    push_decimal(&mut text, 42);
    assert_eq!(text, "n = 42");
    push_decimal(&mut text, 0);
    assert_eq!(text, "n = 420");
}

#[test]
fn labelled_puts_colon_and_space_between() {
    assert_eq!(labelled_string("incoming", "40"), "incoming: 40");
    assert_eq!(labelled_string("", ""), ": ");
}

#[test]
fn rated_puts_the_unit_after_one_space() {
    assert_eq!(rated_string("threshold", "100", "per second"), "threshold: 100 per second");
    assert_eq!(rated_string("a", "", ""), "a:  ");
}

#[test]
fn joined_without_tail_is_the_head() {
    assert_eq!(joined_string("example.com", ""), "example.com");
    assert_eq!(joined_string("", ""), "");
}

#[test]
fn joined_with_tail_puts_a_dash_between() {
    assert_eq!(joined_string("example.com", "AS123 Example"), "example.com - AS123 Example");
    assert_eq!(joined_string("", "x"), " - x");
}

#[test]
fn joined_counts_characters_not_bytes() {
    assert_eq!(joined_string("münchen.de", "Ä"), "münchen.de - Ä");
}
