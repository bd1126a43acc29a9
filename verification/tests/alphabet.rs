use password_generator::alphabet::{ASCII_LOWER, ASCII_NUMBERS, ASCII_SYMBOLS, ASCII_UPPER};

#[test]
fn upper_is_a_to_z() {
    let expected: String = ('A'..='Z').collect();
    assert_eq!(ASCII_UPPER, expected);
    assert_eq!(ASCII_UPPER.chars().count(), 26);
}

#[test]
fn lower_is_a_to_z() {
    let expected: String = ('a'..='z').collect();
    assert_eq!(ASCII_LOWER, expected);
    assert_eq!(ASCII_LOWER.chars().count(), 26);
}

#[test]
fn numbers_are_zero_to_nine() {
    assert_eq!(ASCII_NUMBERS, "0123456789");
}

#[test]
fn symbols_are_the_fixed_set() {
    assert_eq!(ASCII_SYMBOLS, "!()-.?[]_`~;:!@#$%^&*+=");
    let mut distinct: Vec<char> = ASCII_SYMBOLS.chars().collect();
    distinct.sort();
    distinct.dedup();
    assert_eq!(distinct.len(), 22);
}
