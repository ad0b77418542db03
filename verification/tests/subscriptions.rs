use zero2prod::domain::{NewSubscriber, SubscriberEmail, SubscriberName};
use zero2prod::email_client::EmailClient;
use zero2prod::errors::Error;
use zero2prod::routes::{
    confirmation_email, greet, subscribe_step, subscriber_record, FormData, HelloTemplate,
    SubscribeAction, SubscribeEvent, SubscribeStage,
};

fn form(name: &str, email: &str) -> FormData {
    FormData { name: name.to_string(), email: email.to_string() }
}

fn expect_reply(action: SubscribeAction, status: u16, body: &str) {
    match action {
        SubscribeAction::Respond(reply) => {
            assert_eq!(reply.status, status);
            assert_eq!(reply.body, body);
        }
        _ => panic!("expected a reply"),
    }
}

#[test]
fn a_missing_form_is_refused() {
    let (stage, action) =
        subscribe_step(SubscribeStage::AwaitingForm, SubscribeEvent::FormReceived(None));
    assert!(matches!(stage, SubscribeStage::Finished));
    expect_reply(action, 400, "Missing fields");
}

#[test]
fn an_invalid_form_is_refused() {
    let (stage, action) = subscribe_step(
        SubscribeStage::AwaitingForm,
        SubscribeEvent::FormReceived(Some(form("Ursula", "ursuladomain.com"))),
    );
    assert!(matches!(stage, SubscribeStage::Finished));
    expect_reply(action, 400, "invalid form data");
    let (_, action) = subscribe_step(
        SubscribeStage::AwaitingForm,
        SubscribeEvent::FormReceived(Some(form("Urs{ula", "ursula@domain.com"))),
    );
    expect_reply(action, 400, "invalid form data");
}

#[test]
fn a_valid_subscription_goes_through_every_step() {
    let (stage, action) = subscribe_step(
        SubscribeStage::AwaitingForm,
        SubscribeEvent::FormReceived(Some(form("Ursula", "ursula@domain.com"))),
    );
    match action {
        SubscribeAction::Insert(record) => {
            assert_eq!(record.name, "Ursula");
            assert_eq!(record.email, "ursula@domain.com");
        }
        _ => panic!("expected an insert"),
    }
    let (stage, action) = subscribe_step(stage, SubscribeEvent::InsertFinished(Ok(())));
    match action {
        SubscribeAction::SendEmail(email) => {
            assert_eq!(email.recipient.as_ref(), "ursula@domain.com");
            assert_eq!(email.subject, "Welcome!");
        }
        _ => panic!("expected an email"),
    }
    let (stage, action) = subscribe_step(stage, SubscribeEvent::EmailFinished(Ok(())));
    assert!(matches!(stage, SubscribeStage::Finished));
    expect_reply(action, 200, "Received subscription");
}

#[test]
fn a_database_failure_is_reported() {
    let (stage, _) = subscribe_step(
        SubscribeStage::AwaitingForm,
        SubscribeEvent::FormReceived(Some(form("Ursula", "ursula@domain.com"))),
    );
    let (stage, action) =
        subscribe_step(stage, SubscribeEvent::InsertFinished(Err("timed out".to_string())));
    assert!(matches!(stage, SubscribeStage::Finished));
    expect_reply(action, 500, "Database error: timed out");
}

#[test]
fn an_email_failure_is_reported() {
    let (stage, action) = subscribe_step(
        SubscribeStage::AwaitingEmail,
        SubscribeEvent::EmailFinished(Err("Timeout".to_string())),
    );
    assert!(matches!(stage, SubscribeStage::Finished));
    expect_reply(action, 500, "invalid form data: Timeout");
}

#[test]
fn new_subscribers_check_the_name_first() {
    match NewSubscriber::try_from(form("", "nope")) {
        Err(Error::ValidateSubscriberNameError(_)) => {}
        _ => panic!("expected the name error"),
    }
    match NewSubscriber::try_from(form("Ursula", "nope")) {
        Err(Error::ValidateSubscriberEmailError(m)) => {
            assert_eq!(m, "nope is not a valid subscriber email.")
        }
        _ => panic!("expected the email error"),
    }
    let s = NewSubscriber::try_from(form("Ursula", "ursula@domain.com")).unwrap();
    let record = subscriber_record(&s);
    assert_eq!(record.name, "Ursula");
    assert_eq!(record.email, "ursula@domain.com");
}

#[test]
fn the_confirmation_email_carries_the_link() {
    let s = NewSubscriber::new(
        SubscriberEmail::parse("ursula@domain.com").unwrap(),
        SubscriberName::parse("Ursula").unwrap(),
    );
    let email = confirmation_email(s);
    assert_eq!(email.recipient.as_ref(), "ursula@domain.com");
    assert_eq!(email.subject, "Welcome!");
    assert_eq!(
        email.text_body,
        "Welcome to our newsletter!\nVisit https://my-api.com/subscriptions/confirm to confirm your subscription."
    );
    assert_eq!(
        email.html_body,
        "Welcome to our newsletter!<br />Click <a href=\"https://my-api.com/subscriptions/confirm\">here</a> to confirm your subscription."
    );
}

#[test]
fn send_email_requests_go_to_the_email_endpoint() {
    let client = EmailClient::new(
        "http://127.0.0.1:8080".to_string(),
        SubscriberEmail::parse("sender@domain.com").unwrap(),
    );
    let recipient = SubscriberEmail::parse("ursula@domain.com").unwrap();
    let request = client.send_email_request(&recipient, "Hi", "<p>Hi</p>", "Hi");
    assert_eq!(request.url, "http://127.0.0.1:8080/email");
    assert_eq!(request.from, "sender@domain.com");
    assert_eq!(request.to, "ursula@domain.com");
    assert_eq!(request.subject, "Hi");
    assert_eq!(request.html_body, "<p>Hi</p>");
    assert_eq!(request.text_body, "Hi");
    let copy = client.clone();
    assert_eq!(copy.base_url, "http://127.0.0.1:8080");
    assert_eq!(copy.sender.as_ref(), "sender@domain.com");
}

#[test]
fn greetings_name_the_guest() {
    assert_eq!(greet("Ursula"), "Hello, Ursula!");
    assert_eq!(greet(""), "Hello, !");
}

#[test]
fn the_home_page_template_starts_empty() {
    assert_eq!(HelloTemplate::default().name, "");
}
