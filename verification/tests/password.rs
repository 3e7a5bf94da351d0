use newsletter::domain::password::Password;

#[test]
fn a_password_longer_than_129_graphemes_is_rejected() {
    let password = "ё".repeat(130);
    assert!(Password::parse(password).is_ok());
}

#[test]
fn a_password_short_than_12_graphemes_is_rejected() {
    let password = "a".repeat(12);
    assert!(Password::parse(password).is_err());
}

#[test]
fn whitespace_only_passwords_are_rejected() {
    let password = " ".to_string();
    assert!(Password::parse(password).is_err());
}

#[test]
fn empty_string_is_rejected() {
    let password = "".to_string();
    assert!(Password::parse(password).is_err());
}

#[test]
fn a_valid_password_is_parsed_successfully() {
    let password = uuid::Uuid::new_v4().to_string();
    assert!(Password::parse(password).is_ok());
}

fn rejection(s: String) -> String {
    match Password::parse(s) {
        Ok(_) => panic!("the password was accepted"),
        Err(e) => e,
    }
}

#[test]
fn blank_password_gets_the_required_message() {
    assert_eq!(rejection("   \t\n".to_string()), "Password requried.");
    assert_eq!(rejection("".to_string()), "Password requried.");
}

#[test]
fn unicode_white_space_counts_as_blank() {
    // U+3000 IDEOGRAPHIC SPACE and U+2003 EM SPACE carry the White_Space property.
    let password = "\u{3000}\u{2003}".repeat(10);
    assert_eq!(rejection(password), "Password requried.");
}

#[test]
fn non_white_space_controls_are_not_blank() {
    // U+200B ZERO WIDTH SPACE has no White_Space property, so the text is not blank.
    let password = "\u{200B}".repeat(20);
    assert!(Password::parse(password).is_ok());
}

#[test]
fn a_password_of_131_graphemes_is_too_long() {
    assert_eq!(
        rejection("ё".repeat(131)),
        "Password must be at most 129 character long."
    );
}

#[test]
fn a_password_of_13_graphemes_is_accepted() {
    assert!(Password::parse("a".repeat(13)).is_ok());
}

#[test]
fn a_password_of_12_graphemes_is_too_short() {
    assert_eq!(
        rejection("a".repeat(12)),
        "Password must be at least 12 character long."
    );
}

#[test]
fn combining_marks_count_as_one_grapheme() {
    // "e" followed by a combining acute accent is one grapheme cluster of two chars.
    assert_eq!(
        rejection("e\u{301}".repeat(12)),
        "Password must be at least 12 character long."
    );
    assert!(Password::parse("e\u{301}".repeat(13)).is_ok());
    // 70 clusters of two chars each: 140 chars, but only 70 graphemes.
    assert!(Password::parse("e\u{301}".repeat(70)).is_ok());
}

#[test]
fn blankness_is_reported_before_length() {
    assert_eq!(rejection(" ".repeat(200)), "Password requried.");
}

#[test]
fn the_parsed_password_keeps_its_text() {
    let text = "correct horse battery staple".to_string();
    let password = Password::parse(text.clone()).unwrap();
    assert_eq!(password.as_ref().expose_secret(), text.as_str());
}

#[test]
fn debug_output_does_not_show_the_password() {
    let password = Password::parse("correct horse battery staple".to_string()).unwrap();
    let shown = format!("{:?}", password);
    assert!(!shown.contains("horse"));
}
