use zero2prod::domain::string_checks::checks_with_grapheme_count;
use zero2prod::domain::{generic_string_checks, NewSubscriber, SubscriberEmail, SubscriberName};

#[test]
fn accepted_name_reads_back_unchanged() {
    let name = SubscriberName::parse("Ada Lovelace".to_string()).unwrap();
    assert_eq!(name.as_ref(), "Ada Lovelace");
}

#[test]
fn accepted_email_reads_back_unchanged() {
    let email = SubscriberEmail::parse("ada@example.com".to_string()).unwrap();
    assert_eq!(email.as_ref(), "ada@example.com");
}

#[test]
fn rejected_name_error_text() {
    let err = SubscriberName::parse("a<b".to_string()).unwrap_err();
    assert_eq!(err, "a<b is not a valid subscriber name.");
}

#[test]
fn rejected_email_error_texts() {
    let err = SubscriberEmail::parse("nobody".to_string()).unwrap_err();
    assert_eq!(err, "nobody is not a valid subscriber email.");
    let err = SubscriberEmail::parse("a{b}@c".to_string()).unwrap_err();
    assert_eq!(err, "a{b}@c is not a valid subscriber email.");
}

#[test]
fn blank_strings_are_rejected() {
    assert!(!generic_string_checks(""));
    assert!(!generic_string_checks("   "));
    assert!(!generic_string_checks("\t\n\r"));
    assert!(!generic_string_checks("\u{A0}\u{3000}"));
}

#[test]
fn surrounding_whitespace_is_accepted() {
    assert!(generic_string_checks("  Ursula  "));
    assert!(generic_string_checks("\u{A0}x"));
}

#[test]
fn combining_marks_count_as_one_grapheme() {
    // 300 characters but only 150 grapheme clusters: not too long.
    let name = "e\u{301}".repeat(150);
    assert_eq!(name.chars().count(), 300);
    assert!(generic_string_checks(&name));
    // 257 clusters of two characters each: too long.
    let name = "e\u{301}".repeat(257);
    assert!(!generic_string_checks(&name));
}

#[test]
fn length_limit_is_exactly_256_graphemes() {
    assert!(generic_string_checks(&"x".repeat(256)));
    assert!(!generic_string_checks(&"x".repeat(257)));
}

#[test]
fn checks_with_given_count() {
    assert!(checks_with_grapheme_count("abc", 3));
    assert!(checks_with_grapheme_count("abc", 256));
    assert!(!checks_with_grapheme_count("abc", 257));
    assert!(!checks_with_grapheme_count(" ", 1));
    assert!(!checks_with_grapheme_count("a)", 2));
}

#[test]
fn every_forbidden_char_anywhere_is_rejected() {
    for c in ['/', '(', ')', '"', '<', '>', '\\', '{', '}'] {
        let s = format!("abc{}def@x", c);
        assert!(!generic_string_checks(&s));
        assert!(SubscriberEmail::parse(s).is_err());
    }
}

#[test]
fn new_subscriber_getters() {
    let subscriber = NewSubscriber {
        email: SubscriberEmail::parse("grace@navy.mil".to_string()).unwrap(),
        name: SubscriberName::parse("Grace Hopper".to_string()).unwrap(),
    };
    assert_eq!(subscriber.email(), "grace@navy.mil");
    assert_eq!(subscriber.name(), "Grace Hopper");
}

#[test]
fn valid_email_is_valid_name() {
    let s = "col@gmail.com";
    assert!(SubscriberEmail::parse(s.to_string()).is_ok());
    assert!(SubscriberName::parse(s.to_string()).is_ok());
}

fn text_of<T: AsRef<str>>(value: &T) -> String {
    value.as_ref().to_string()
}

#[test]
fn as_ref_trait_gives_the_text() {
    let name = SubscriberName::parse("Alan Turing".to_string()).unwrap();
    let email = SubscriberEmail::parse("alan@bletchley.uk".to_string()).unwrap();
    assert_eq!(text_of(&name), "Alan Turing");
    assert_eq!(text_of(&email), "alan@bletchley.uk");
}

#[test]
fn non_whitespace_letters_are_accepted() {
    assert!(generic_string_checks("\u{8D8A}"));
    assert!(SubscriberName::parse("\u{8D8A}".to_string()).is_ok());
}

#[test]
fn white_space_set_edges() {
    for blank in ["\u{85}", "\u{1680}", "\u{2000}\u{200A}", "\u{2028}\u{2029}", "\u{202F}\u{205F}", "\u{B}\u{C}"] {
        assert!(!generic_string_checks(blank));
    }
    // Zero-width space and the byte-order mark are not White_Space.
    assert!(generic_string_checks("\u{200B}"));
    assert!(generic_string_checks("\u{FEFF}"));
}
