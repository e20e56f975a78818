use save_reminder::parse::parse_duration;

#[test]
fn accepts_a_plain_number() {
    assert_eq!(parse_duration("5"), Some(5));
    assert_eq!(parse_duration("42"), Some(42));
}

#[test]
fn accepts_zero() {
    assert_eq!(parse_duration("0"), Some(0));
}

#[test]
fn accepts_leading_zeros() {
    assert_eq!(parse_duration("007"), Some(7));
}

#[test]
fn accepts_the_largest_value() {
    assert_eq!(parse_duration("18446744073709551615"), Some(u64::MAX));
}

#[test]
fn rejects_one_past_the_largest_value() {
    assert_eq!(parse_duration("18446744073709551616"), None);
}

#[test]
fn rejects_a_much_larger_value() {
    assert_eq!(parse_duration("99999999999999999999999999"), None);
}

#[test]
fn rejects_empty_text() {
    assert_eq!(parse_duration(""), None);
}

#[test]
fn rejects_trailing_garbage() {
    assert_eq!(parse_duration("12a"), None);
}

#[test]
fn rejects_leading_garbage() {
    assert_eq!(parse_duration("a12"), None);
}

#[test]
fn rejects_whitespace() {
    assert_eq!(parse_duration(" 5"), None);
    assert_eq!(parse_duration("5 "), None);
}

#[test]
fn rejects_signs() {
    assert_eq!(parse_duration("-3"), None);
    assert_eq!(parse_duration("+3"), None);
}

#[test]
fn rejects_fractions() {
    assert_eq!(parse_duration("5.0"), None);
}

#[test]
fn rejects_non_ascii_digits() {
    // Arabic-Indic five.
    assert_eq!(parse_duration("\u{0665}"), None);
}
