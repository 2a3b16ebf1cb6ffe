use std::convert::TryFrom;
use unicode::codepoint::{Codepoint, UnicodeCodepoint};

#[test]
fn largest_codepoint_is_accepted() {
    let codepoint = UnicodeCodepoint::try_from(0x10FFFF).unwrap();
    assert_eq!(codepoint.value(), 0x10FFFF);
    assert_eq!(u32::from(codepoint), 0x10FFFF);
}

#[test]
fn one_above_the_largest_codepoint_is_refused() {
    assert!(UnicodeCodepoint::try_from(0x110000).is_err());
    assert!(matches!(UnicodeCodepoint::try_from(0x110000), Err(())));
}

#[test]
fn numbers_far_above_the_code_space_are_refused() {
    assert!(UnicodeCodepoint::try_from(0x110001).is_err());
    assert!(UnicodeCodepoint::try_from(0x1000000).is_err());
    assert!(UnicodeCodepoint::try_from(u32::MAX).is_err());
}

#[test]
fn every_codepoint_keeps_its_number() {
    for value in 0..=0x10FFFFu32 {
        let codepoint = UnicodeCodepoint::try_from(value).unwrap();
        assert_eq!(codepoint.value(), value);
        assert_eq!(u32::from(codepoint), value);
    }
}

#[test]
fn smallest_codepoint_is_accepted() {
    let codepoint = UnicodeCodepoint::try_from(0).unwrap();
    assert_eq!(u32::from(codepoint), 0);
    assert_eq!(char::try_from(codepoint), Ok('\0'));
}

#[test]
fn character_gives_its_scalar_value() {
    assert_eq!('A'.value(), 0x41);
    assert_eq!('\0'.value(), 0);
    assert_eq!('\u{d7ff}'.value(), 0xD7FF);
    assert_eq!('\u{e000}'.value(), 0xE000);
    assert_eq!('\u{10ffff}'.value(), 0x10FFFF);
    assert_eq!(u32::from(UnicodeCodepoint::from('A')), 0x41);
    assert_eq!(UnicodeCodepoint::from('\u{10ffff}').value(), 0x10FFFF);
}

#[test]
fn character_survives_the_round_trip() {
    for value in 0..=0x10FFFFu32 {
        if let Some(ch) = char::from_u32(value) {
            let codepoint = UnicodeCodepoint::from(ch);
            assert_eq!(codepoint.value(), value);
            assert_eq!(char::try_from(codepoint), Ok(ch));
        }
    }
}

#[test]
fn codepoint_to_character_gives_the_character_of_that_number() {
    assert_eq!(char::try_from(UnicodeCodepoint::try_from(0x41).unwrap()), Ok('A'));
    assert_eq!(char::try_from(UnicodeCodepoint::try_from(0xE9).unwrap()), Ok('é'));
    assert_eq!(char::try_from(UnicodeCodepoint::try_from(0xD7FF).unwrap()), Ok('\u{d7ff}'));
    assert_eq!(char::try_from(UnicodeCodepoint::try_from(0xE000).unwrap()), Ok('\u{e000}'));
    assert_eq!(char::try_from(UnicodeCodepoint::try_from(0xFFFF).unwrap()), Ok('\u{ffff}'));
    assert_eq!(char::try_from(UnicodeCodepoint::try_from(0x1F600).unwrap()), Ok('\u{1f600}'));
    assert_eq!(char::try_from(UnicodeCodepoint::try_from(0x10FFFF).unwrap()), Ok('\u{10ffff}'));
}

#[test]
fn surrogates_are_no_characters() {
    for value in 0xD800..=0xDFFFu32 {
        let codepoint = UnicodeCodepoint::try_from(value).unwrap();
        assert!(char::try_from(codepoint).is_err());
        assert_eq!(char::try_from(codepoint), char::try_from(value));
    }
}

#[test]
fn codepoint_is_a_character_unless_it_is_a_surrogate() {
    for value in 0..=0x10FFFFu32 {
        let codepoint = UnicodeCodepoint::try_from(value).unwrap();
        let surrogate = (0xD800..=0xDFFF).contains(&value);
        match char::try_from(codepoint) {
            Ok(ch) => {
                assert!(!surrogate);
                assert_eq!(ch as u32, value);
            }
            Err(_) => assert!(surrogate),
        }
    }
}

#[test]
fn codepoints_can_be_copied() {
    let codepoint = UnicodeCodepoint::try_from(0x2028).unwrap();
    let copy = codepoint;
    let clone = codepoint.clone();
    assert_eq!(u32::from(codepoint), 0x2028);
    assert_eq!(u32::from(copy), 0x2028);
    assert_eq!(u32::from(clone), 0x2028);
}
