use password_bot::parse::{parse_u8, ParseError};

fn cv(s: &str) -> Vec<char> {
    s.chars().collect()
}

#[test]
fn plain_numbers_parse() {
    assert_eq!(parse_u8(&cv("7")), Ok(7));
    assert_eq!(parse_u8(&cv("0")), Ok(0));
    assert_eq!(parse_u8(&cv("16")), Ok(16));
    assert_eq!(parse_u8(&cv("255")), Ok(255));
    assert_eq!(parse_u8(&cv("007")), Ok(7));
}

#[test]
fn signs_are_handled_like_the_standard_parser() {
    assert_eq!(parse_u8(&cv("+42")), Ok(42));
    assert_eq!(parse_u8(&cv("+")), Err(ParseError::InvalidDigit));
    assert_eq!(parse_u8(&cv("-")), Err(ParseError::InvalidDigit));
    assert_eq!(parse_u8(&cv("-0")), Err(ParseError::InvalidDigit));
    assert_eq!(parse_u8(&cv("-1")), Err(ParseError::InvalidDigit));
}

#[test]
fn bad_input_is_classified() {
    assert_eq!(parse_u8(&cv("")), Err(ParseError::Empty));
    assert_eq!(parse_u8(&cv("abc")), Err(ParseError::InvalidDigit));
    assert_eq!(parse_u8(&cv("12x")), Err(ParseError::InvalidDigit));
    assert_eq!(parse_u8(&cv(" 7")), Err(ParseError::InvalidDigit));
    assert_eq!(parse_u8(&cv("256")), Err(ParseError::PosOverflow));
    assert_eq!(parse_u8(&cv("999")), Err(ParseError::PosOverflow));
    assert_eq!(parse_u8(&cv("9999x")), Err(ParseError::PosOverflow));
}

#[test]
fn agrees_with_std_on_success_and_failure() {
    let samples = [
        "7", "0", "255", "256", "", "+", "-", "+42", "-0", "-1", "007", "12x", " 7", "yes",
        "999999999999999999999999", "2 5", "0x10",
    ];
    for s in samples.iter() {
        let ours = parse_u8(&cv(s));
        let std_result = s.parse::<u8>();
        match (ours, std_result) {
            (Ok(a), Ok(b)) => assert_eq!(a, b, "value mismatch on {:?}", s),
            (Err(_), Err(_)) => {},
            (a, b) => panic!("divergence on {:?}: ours {:?}, std {:?}", s, a, b),
        }
    }
}
