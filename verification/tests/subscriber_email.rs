use zero2prod::domain::SubscriberEmail;
use zero2prod::errors::Error;

#[test]
fn subscriber_email_empty_string_is_rejected() {
    let email = "".to_string();
    assert_eq!(SubscriberEmail::parse(&email).is_err(), true);
}

#[test]
fn email_missing_at_symbol_is_rejected() {
    let email = "ursuladomain.com".to_string();
    assert_eq!(SubscriberEmail::parse(&email).is_err(), true);
}

#[test]
fn email_missing_subject_is_rejected() {
    let email = "@domain.com".to_string();
    assert_eq!(SubscriberEmail::parse(&email).is_err(), true);
}

#[test]
fn a_valid_email_is_parsed_successfully() {
    let email = SubscriberEmail::parse("ursula@domain.com").unwrap();
    assert_eq!(email.as_ref(), "ursula@domain.com");
    assert_eq!(email.clone().as_ref(), "ursula@domain.com");
}

#[test]
fn a_rejected_email_is_quoted_in_the_error() {
    match SubscriberEmail::parse("ursuladomain.com") {
        Err(Error::ValidateSubscriberEmailError(m)) => {
            assert_eq!(m, "ursuladomain.com is not a valid subscriber email.")
        }
        _ => panic!("expected the email error"),
    }
}

#[test]
fn a_too_long_user_part_is_rejected() {
    let email = format!("{}@domain.com", "a".repeat(65));
    assert!(SubscriberEmail::parse(&email).is_err());
    let email = format!("{}@domain.com", "a".repeat(64));
    assert!(SubscriberEmail::parse(&email).is_ok());
}

#[test]
fn the_verdict_decides_the_email_rule() {
    assert!(SubscriberEmail::parse_with_verdict("anything", true).is_ok());
    assert!(SubscriberEmail::parse_with_verdict("a@b.com", false).is_err());
}

#[test]
fn errors_describe_themselves() {
    let e = Error::ValidateSubscriberNameError("x".to_string());
    assert_eq!(e.to_string(), "invalid subscriber name Error: x");
    let e = Error::ValidateSubscriberEmailError("y".to_string());
    assert_eq!(e.to_string(), "invalid subscriber email Error: y");
}
