use zoo_contract::error::GameError;
use zoo_contract::text::{char_is_white_space, validate_non_empty_string, validate_string_length};

#[test]
fn blank_strings_are_rejected() {
    for s in ["", " ", "   ", "\t\n\r", "\u{3000}", " \u{00A0}\u{2003}\u{2028} ", "\u{0085}\u{1680}"] {
        assert_eq!(validate_non_empty_string(s), Err(GameError::EmptyString), "{:?}", s);
    }
}

#[test]
fn strings_that_say_something_are_accepted() {
    for s in ["a", " a ", "\t.\n", "Dragon", "\u{200B}", "\u{FEFF}", "  \u{4E2D}  "] {
        assert_eq!(validate_non_empty_string(s), Ok(()), "{:?}", s);
    }
}

#[test]
fn white_space_agrees_with_the_standard_library() {
    for code in 0..=0x11_0000u32 {
        if let Some(c) = char::from_u32(code) {
            assert_eq!(char_is_white_space(c), c.is_whitespace(), "U+{:04X}", code);
        }
    }
}

#[test]
fn blankness_agrees_with_trimming() {
    for s in ["", " x", "\u{2000}\u{200A}", "\u{200B}", "\u{1680} \u{205F}", "a\u{3000}"] {
        assert_eq!(validate_non_empty_string(s).is_err(), s.trim().is_empty(), "{:?}", s);
    }
}

#[test]
fn length_is_counted_in_bytes() {
    let thirty_two = "a".repeat(32);
    assert_eq!(validate_string_length(&thirty_two, 32), Ok(()));
    let thirty_three = "a".repeat(33);
    assert_eq!(validate_string_length(&thirty_three, 32), Err(GameError::StringTooLong));
    let sixteen_two_byte_chars = "\u{00E9}".repeat(16);
    assert_eq!(validate_string_length(&sixteen_two_byte_chars, 32), Ok(()));
    let seventeen_two_byte_chars = "\u{00E9}".repeat(17);
    assert_eq!(validate_string_length(&seventeen_two_byte_chars, 32), Err(GameError::StringTooLong));
    assert_eq!(validate_string_length("", 0), Ok(()));
    assert_eq!(validate_string_length("x", 0), Err(GameError::StringTooLong));
}
