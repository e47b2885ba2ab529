use rgz_transport::verbosity::{level_in_range, parse_unsigned, port_or_default, LevelError};

#[test]
fn levels_zero_to_four_are_accepted() {
    for (s, l) in [("0", 0u8), ("4", 4), ("+3", 3), ("004", 4)] {
        assert_eq!(level_in_range(s), Ok(l), "{}", s);
    }
}

#[test]
fn other_texts_are_refused() {
    assert_eq!(level_in_range("5"), Err(LevelError::OutOfRange));
    assert_eq!(level_in_range("18446744073709551615"), Err(LevelError::OutOfRange));
    assert_eq!(level_in_range("18446744073709551616"), Err(LevelError::NotANumber));
    for s in ["", "+", "-1", "a", "1 ", " 1"] {
        assert_eq!(level_in_range(s), Err(LevelError::NotANumber), "{:?}", s);
    }
}

#[test]
fn ports_fall_back_to_the_default() {
    assert_eq!(port_or_default(None, 10317), 10317);
    assert_eq!(port_or_default(Some("11319"), 10317), 11319);
    assert_eq!(port_or_default(Some("+0"), 10317), 0);
    assert_eq!(port_or_default(Some("65536"), 10317), 10317);
    assert_eq!(port_or_default(Some("x"), 10317), 10317);
    assert_eq!(parse_unsigned("12"), Some(12));
    assert_eq!(parse_unsigned("1-2"), None);
}
