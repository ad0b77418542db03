use zero2prod::domain::SubscriberName;
use zero2prod::errors::Error;

#[test]
fn a_256_grapheme_long_name_is_valid() {
    let name = "ё".repeat(256);
    assert_eq!(SubscriberName::parse(&name).is_ok(), true);
}

#[test]
fn a_name_longer_than_256_graphemes_is_rejected() {
    let name = "a".repeat(257);
    assert_eq!(SubscriberName::parse(&name).is_err(), true);
}

#[test]
fn whitespace_only_names_are_rejected() {
    let name = " ".to_string();
    assert_eq!(SubscriberName::parse(&name).is_err(), true);
}

#[test]
fn subscriber_name_empty_string_is_rejected() {
    let name = "".to_string();
    assert_eq!(SubscriberName::parse(&name).is_err(), true);
}

#[test]
fn names_containing_an_invalid_character_are_rejected() {
    for name in &['/', '(', ')', '"', '<', '>', '\\', '{', '}'] {
        let name = name.to_string();
        assert_eq!(SubscriberName::parse(&name).is_err(), true);
    }
}

#[test]
fn a_valid_name_is_parsed_successfully() {
    let name = "Ursula Le Guin".to_string();
    assert_eq!(SubscriberName::parse(&name).is_ok(), true);
}

#[test]
fn a_parsed_name_keeps_its_text() {
    let name = SubscriberName::parse("Ursula Le Guin").unwrap();
    assert_eq!(name.as_ref(), "Ursula Le Guin");
    assert_eq!(name.inner(), "Ursula Le Guin".to_string());
}

#[test]
fn a_rejected_name_gives_the_name_error() {
    match SubscriberName::parse("a(b") {
        Err(Error::ValidateSubscriberNameError(m)) => assert_eq!(m, "Subscriber name is invalid"),
        _ => panic!("expected the name error"),
    }
}

#[test]
fn a_name_of_256_combined_graphemes_is_valid() {
    // each "e\u{301}" is two characters but one extended grapheme cluster
    let name = "e\u{301}".repeat(256);
    assert_eq!(SubscriberName::parse(&name).is_ok(), true);
    let name = "e\u{301}".repeat(257);
    assert_eq!(SubscriberName::parse(&name).is_err(), true);
}

#[test]
fn the_grapheme_count_decides_the_length_rule() {
    assert!(SubscriberName::parse_with_grapheme_count("Ursula", 256).is_ok());
    assert!(SubscriberName::parse_with_grapheme_count("Ursula", 257).is_err());
}

#[test]
fn names_with_other_white_space_only_are_rejected() {
    assert!(SubscriberName::parse("\t\n \u{3000}").is_err());
    assert!(SubscriberName::parse(" a ").is_ok());
}

#[test]
fn inner_mut_changes_the_name_in_place() {
    let mut name = SubscriberName::parse("ursula").unwrap();
    name.inner_mut().make_ascii_uppercase();
    assert_eq!(name.as_ref(), "URSULA");
}
