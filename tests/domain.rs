use zero2prod::domain::{
    is_acceptable_email, is_acceptable_name, is_email_shaped, NewSubscriber, SubscriberEmail, SubscriberName,
};
use zero2prod::subscriptions::FormData;

#[test]
fn a_256_grapheme_long_name_is_valid() {
    let name = "ё".repeat(256);
    assert!(SubscriberName::parse(name).is_ok());
}

#[test]
fn a_name_longer_than_256_graphemes_is_rejected() {
    let name = "a".repeat(257);
    assert!(SubscriberName::parse(name).is_err());
}

#[test]
fn combining_marks_count_as_one_grapheme() {
    // 256 clusters of "e" + combining acute accent: 512 chars, 256 graphemes.
    let name = "e\u{301}".repeat(256);
    assert!(SubscriberName::parse(name).is_ok());
    let name = "e\u{301}".repeat(257);
    assert!(SubscriberName::parse(name).is_err());
}

#[test]
fn whitespace_only_names_are_rejected() {
    assert!(SubscriberName::parse(" \t\n ".to_string()).is_err());
}

#[test]
fn empty_string_is_rejected() {
    assert!(SubscriberName::parse(String::new()).is_err());
}

#[test]
fn names_containing_an_invalid_character_are_rejected() {
    for c in ['/', '(', ')', '"', '<', '>', '\\', '{', '}'] {
        let name = format!("le{c}guin");
        assert!(SubscriberName::parse(name).is_err(), "accepted a name with {c}");
    }
}

#[test]
fn a_valid_name_is_parsed_successfully_and_trimmed() {
    let name = SubscriberName::parse("  Ursula Le Guin \n".to_string()).unwrap();
    assert_eq!(name.as_str(), "Ursula Le Guin");
}

#[test]
fn name_error_names_the_input() {
    let e = SubscriberName::parse("a/b".to_string()).err().unwrap();
    assert_eq!(e, "a/b is not a valid subscriber name.");
}

#[test]
fn empty_email_is_rejected() {
    assert!(SubscriberEmail::parse(String::new()).is_err());
}

#[test]
fn email_missing_at_symbol_is_rejected() {
    assert!(SubscriberEmail::parse("ursuladomain.com".to_string()).is_err());
}

#[test]
fn email_missing_subject_is_rejected() {
    assert!(SubscriberEmail::parse("@domain.com".to_string()).is_err());
}

#[test]
fn email_missing_domain_is_rejected() {
    assert!(SubscriberEmail::parse("ursula@".to_string()).is_err());
}

#[test]
fn email_with_two_at_symbols_is_rejected() {
    assert!(SubscriberEmail::parse("ursula@le@guin.com".to_string()).is_err());
}

#[test]
fn email_failing_the_grammar_is_rejected() {
    assert!(SubscriberEmail::parse("ursula le guin@gmail.com".to_string()).is_err());
    assert!(SubscriberEmail::parse("definitely-not-an-email".to_string()).is_err());
}

#[test]
fn valid_emails_are_parsed_successfully() {
    let email = SubscriberEmail::parse("ursula_le_guin@gmail.com".to_string()).unwrap();
    assert_eq!(email.as_str(), "ursula_le_guin@gmail.com");
}

#[test]
fn email_error_names_the_input() {
    let e = SubscriberEmail::parse("nope".to_string()).err().unwrap();
    assert_eq!(e, "nope is not a valid subscriber email.");
}

#[test]
fn acceptable_name_decides_on_the_given_grapheme_count() {
    assert!(is_acceptable_name("le guin", 7));
    assert!(is_acceptable_name("le guin", 256));
    assert!(!is_acceptable_name("le guin", 257));
    assert!(!is_acceptable_name("   ", 3));
    assert!(!is_acceptable_name("le{guin", 7));
}

#[test]
fn email_shape_needs_one_at_between_two_parts() {
    assert!(is_email_shaped("a@b"));
    assert!(!is_email_shaped("ab"));
    assert!(!is_email_shaped("@b"));
    assert!(!is_email_shaped("a@"));
    assert!(!is_email_shaped("a@b@c"));
    assert!(!is_email_shaped(""));
}

#[test]
fn form_error_is_that_of_the_first_invalid_field() {
    let both = FormData { name: "a/b".to_string(), email: "nope".to_string() };
    assert_eq!(
        NewSubscriber::try_from_form(both).err().unwrap(),
        "a/b is not a valid subscriber name."
    );
    let email_only = FormData { name: "le guin".to_string(), email: "nope".to_string() };
    assert_eq!(
        NewSubscriber::try_from_form(email_only).err().unwrap(),
        "nope is not a valid subscriber email."
    );
    let valid = FormData {
        name: " le guin ".to_string(),
        email: "ursula_le_guin@gmail.com".to_string(),
    };
    let subscriber = NewSubscriber::try_from_form(valid).ok().unwrap();
    assert_eq!(subscriber.name.as_str(), "le guin");
    assert_eq!(subscriber.email.as_str(), "ursula_le_guin@gmail.com");
}

#[test]
fn graphemes_are_counted_on_the_trimmed_name() {
    let padded = format!("a{}", " ".repeat(300));
    let name = SubscriberName::parse(padded).unwrap();
    assert_eq!(name.as_str(), "a");
    let long = format!("  {}  ", "a".repeat(256));
    assert!(SubscriberName::parse(long).is_ok());
    let too_long = format!("  {}  ", "a".repeat(257));
    assert!(SubscriberName::parse(too_long).is_err());
}

#[test]
fn acceptable_email_decides_on_the_given_grammar_result() {
    assert!(is_acceptable_email("a@b", true));
    assert!(!is_acceptable_email("a@b", false));
    assert!(!is_acceptable_email("ab", true));
    assert!(!is_acceptable_email("a@b@c", true));
}
