use zero2prod::domain::{SubscriberEmail, SubscriberName};

#[test]
fn domain_a_256_graphene_long_name_is_valid() {
    let name = format!("{}{}", "a".repeat(255), "💻");
    assert!(SubscriberName::parse(name).is_ok());
}

#[test]
fn domain_a_longer_than_256_graphene_long_name_is_rejected() {
    let name = format!("{}{}", "a".repeat(256), "💻");
    assert!(SubscriberName::parse(name).is_err());
}

#[test]
fn domain_whitespace_only_name_rejected() {
    let name = " ".to_string();
    assert!(SubscriberName::parse(name).is_err());
}

#[test]
fn domain_empty_string_rejected() {
    let name = "".to_string();
    assert!(SubscriberName::parse(name).is_err());
}

#[test]
fn domain_invalid_chars_in_name_rejected() {
    for name in vec!['/', '(', ')', '"', '<', '>', '\\', '{', '}'] {
        let name = name.to_string();
        assert!(SubscriberName::parse(name).is_err());
    }
}

#[test]
fn domain_a_valid_name_is_all_good() {
    let name = "Colman Humphrey".to_string();
    assert!(SubscriberName::parse(name).is_ok());
}

#[test]
fn email_without_atsym_fails() {
    let email = "colatgmail.com".to_string();
    assert!(SubscriberEmail::parse(email).is_err());
}

#[test]
fn valid_email_all_good() {
    let email = "col@gmail.com".to_string();
    assert!(SubscriberEmail::parse(email).is_ok());
}

#[test]
fn subscriber_name_a_256_graphene_long_name_is_valid() {
    let name = format!("{}{}", "a".repeat(255), "💻");
    assert!(SubscriberName::parse(name).is_ok());
}

#[test]
fn subscriber_name_a_longer_than_256_graphene_long_name_is_rejected() {
    let name = format!("{}{}", "a".repeat(256), "💻");
    assert!(SubscriberName::parse(name).is_err());
}

#[test]
fn subscriber_name_whitespace_only_name_rejected() {
    let name = " ".to_string();
    assert!(SubscriberName::parse(name).is_err());
}

#[test]
fn subscriber_name_empty_string_rejected() {
    let name = "".to_string();
    assert!(SubscriberName::parse(name).is_err());
}

#[test]
fn subscriber_name_invalid_chars_in_name_rejected() {
    for name in vec!['/', '(', ')', '"', '<', '>', '\\', '{', '}'] {
        let name = name.to_string();
        assert!(SubscriberName::parse(name).is_err());
    }
}

#[test]
fn subscriber_name_a_valid_name_is_all_good() {
    let name = "Colman Humphrey".to_string();
    assert!(SubscriberName::parse(name).is_ok());
}
