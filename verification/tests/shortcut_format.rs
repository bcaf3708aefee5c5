use hotkey_toggle::shortcut::{allowed_in_shortcut, validate, InvalidFormat};

#[test]
fn validator_accepts_single_key() {
    assert_eq!(validate("F10"), Ok(()));
}

#[test]
fn validator_accepts_combinations() {
    assert_eq!(validate("ctrl+shift+l"), Ok(()));
    assert_eq!(validate("alt+k"), Ok(()));
    assert_eq!(validate("Ctrl+Alt+Delete"), Ok(()));
}

#[test]
fn validator_accepts_plus_and_minus_alone() {
    assert_eq!(validate("+"), Ok(()));
    assert_eq!(validate("-"), Ok(()));
    assert_eq!(validate("+-+"), Ok(()));
    assert_eq!(validate("ctrl+-"), Ok(()));
}

#[test]
fn validator_accepts_one_character() {
    assert_eq!(validate("a"), Ok(()));
    assert_eq!(validate("7"), Ok(()));
}

#[test]
fn validator_accepts_alphanumerics_beyond_ascii() {
    assert_eq!(validate("é"), Ok(()));
    assert_eq!(validate("٣"), Ok(()));
    assert_eq!(validate("ctrl+ß"), Ok(()));
}

#[test]
fn validator_does_not_ask_for_a_real_key() {
    assert_eq!(validate("notakey"), Ok(()));
    assert_eq!(validate("ctrl+ctrl+ctrl"), Ok(()));
}

#[test]
fn validator_rejects_empty() {
    assert_eq!(validate(""), Err(InvalidFormat::Empty));
}

#[test]
fn validator_rejects_punctuation() {
    assert_eq!(validate("!!"), Err(InvalidFormat::IllegalCharacter));
    assert_eq!(validate("ctrl+!"), Err(InvalidFormat::IllegalCharacter));
    assert_eq!(validate("a_b"), Err(InvalidFormat::IllegalCharacter));
    assert_eq!(validate("ctrl+,"), Err(InvalidFormat::IllegalCharacter));
}

#[test]
fn validator_rejects_whitespace() {
    assert_eq!(validate(" "), Err(InvalidFormat::IllegalCharacter));
    assert_eq!(validate("ctrl + k"), Err(InvalidFormat::IllegalCharacter));
    assert_eq!(validate("F10\n"), Err(InvalidFormat::IllegalCharacter));
}

#[test]
fn validator_rejects_one_bad_character_anywhere() {
    assert_eq!(validate("?ctrl+k"), Err(InvalidFormat::IllegalCharacter));
    assert_eq!(validate("ctrl?+k"), Err(InvalidFormat::IllegalCharacter));
    assert_eq!(validate("ctrl+k?"), Err(InvalidFormat::IllegalCharacter));
}

#[test]
fn validator_agrees_with_character_class_on_ascii() {
    for code in 0u8..128 {
        let c = code as char;
        let text = c.to_string();
        let expected = c.is_alphanumeric() || c == '+' || c == '-';
        assert_eq!(validate(&text).is_ok(), expected, "character {:?}", c);
    }
}

#[test]
fn invalid_format_messages() {
    assert_eq!(
        InvalidFormat::Empty.message(),
        "Invalid hotkey format. Hotkey cannot be empty."
    );
    assert_eq!(
        InvalidFormat::IllegalCharacter.message(),
        "Invalid hotkey format. Use F10, ctrl+shift+l, alt+k, etc."
    );
}

#[test]
fn allowed_characters() {
    assert!(allowed_in_shortcut('a', true));
    assert!(allowed_in_shortcut('+', false));
    assert!(allowed_in_shortcut('-', false));
    assert!(!allowed_in_shortcut('!', false));
    assert!(!allowed_in_shortcut(' ', false));
    assert!(!allowed_in_shortcut('_', false));
}
