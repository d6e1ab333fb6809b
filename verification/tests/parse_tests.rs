use control_core::ids::{parse_id, EngineError};

#[test]
fn accepts_each_valid_id() {
    assert_eq!(parse_id("1"), Ok(1));
    assert_eq!(parse_id("2"), Ok(2));
    assert_eq!(parse_id("3"), Ok(3));
    assert_eq!(parse_id("4"), Ok(4));
}

#[test]
fn accepts_a_leading_plus_and_leading_zeros() {
    assert_eq!(parse_id("+2"), Ok(2));
    assert_eq!(parse_id("04"), Ok(4));
    assert_eq!(parse_id("0001"), Ok(1));
    assert_eq!(parse_id("+03"), Ok(3));
}

#[test]
fn rejects_ids_outside_the_valid_set() {
    for s in ["0", "5", "9", "12", "44", "255", "256", "999999999999999999999999"] {
        assert_eq!(parse_id(s), Err(EngineError::InvalidId));
    }
}

#[test]
fn rejects_everything_that_is_not_a_decimal_numeral() {
    for s in ["", "+", "++1", "-1", " 1", "1 ", "1.0", "one", "abc", "4a", "0x2", "\u{2163}"] {
        assert_eq!(parse_id(s), Err(EngineError::InvalidId));
    }
}
