use book_demos::{check_guess, compare_guess, new_target, parse_guess, GuessError, Outcome};

#[test]
fn parse_plain_number() {
    assert_eq!(parse_guess("42"), Ok(42));
}

#[test]
fn parse_keeps_leading_zeros_value() {
    assert_eq!(parse_guess("0042"), Ok(42));
}

#[test]
fn parse_largest_value() {
    assert_eq!(parse_guess("4294967295"), Ok(u32::MAX));
}

#[test]
fn parse_value_too_large_is_parse_error() {
    assert_eq!(parse_guess("4294967296"), Err(GuessError::ParseError));
    assert_eq!(parse_guess("99999999999999999999"), Err(GuessError::ParseError));
}

#[test]
fn parse_non_numeric_is_parse_error() {
    assert_eq!(parse_guess("abc"), Err(GuessError::ParseError));
    assert_eq!(parse_guess("12a"), Err(GuessError::ParseError));
    assert_eq!(parse_guess("-5"), Err(GuessError::ParseError));
    assert_eq!(parse_guess(" 7"), Err(GuessError::ParseError));
}

#[test]
fn parse_empty_is_empty_input_error() {
    assert_eq!(parse_guess(""), Err(GuessError::EmptyInputError));
}

#[test]
fn compare_below_target() {
    assert_eq!(compare_guess(10, 42), Outcome::Less);
}

#[test]
fn compare_above_target() {
    assert_eq!(compare_guess(99, 42), Outcome::Greater);
}

#[test]
fn compare_hits_target() {
    assert_eq!(compare_guess(42, 42), Outcome::Equal);
}

#[test]
fn round_low_guess_is_less() {
    assert_eq!(check_guess("10", 42), Ok(Outcome::Less));
}

#[test]
fn round_exact_guess_is_equal() {
    assert_eq!(check_guess("42", 42), Ok(Outcome::Equal));
}

#[test]
fn round_non_numeric_gives_no_outcome() {
    assert_eq!(check_guess("abc", 42), Err(GuessError::ParseError));
}

#[test]
fn round_empty_line_gives_no_outcome() {
    assert_eq!(check_guess("", 42), Err(GuessError::EmptyInputError));
}

#[test]
fn target_stays_in_range() {
    for _ in 0..100 {
        let t = new_target();
        assert!((1..101).contains(&t));
    }
}
