use crate::domain::subscriber_email::email_is_valid;
use crate::domain::subscriber_name::is_valid_name;
use crate::domain::{NewSubscriber, SubscriberEmail};
use vstd::prelude::*;

verus! {

/// The fields of a subscription form.
#[derive(Debug)]
pub struct FormData {
    pub name: String,
    pub email: String,
}

/// Why a subscription failed.
#[derive(Debug)]
pub enum SubscribeError {
    ValidationError(String),
    UnexpectedError(String),
}

/// The link that a new subscriber follows to confirm the subscription.
pub open spec fn confirmation_link() -> Seq<char> {
    "https://my-api.com/subscriptions/confirm"@
}

pub open spec fn confirmation_subject() -> Seq<char> {
    "Welcome!"@
}

pub open spec fn confirmation_text_body() -> Seq<char> {
    "Welcome to our newsletter!\nVisit "@ + confirmation_link() + " to confirm your subscription."@
}

pub open spec fn confirmation_html_body() -> Seq<char> {
    "Welcome to our newsletter!<br />Click <a href=\""@ + confirmation_link()
        + "\">here</a> to confirm your subscription."@
}

/// The confirmation email's subject and bodies, written out whole.
pub proof fn lemma_confirmation_email_text()
    ensures
        confirmation_subject() == "Welcome!"@,
        confirmation_text_body()
            == "Welcome to our newsletter!\nVisit https://my-api.com/subscriptions/confirm to confirm your subscription."@,
        confirmation_html_body()
            == "Welcome to our newsletter!<br />Click <a href=\"https://my-api.com/subscriptions/confirm\">here</a> to confirm your subscription."@,
{
    reveal_strlit("Welcome to our newsletter!\nVisit ");
    reveal_strlit("https://my-api.com/subscriptions/confirm");
    reveal_strlit(" to confirm your subscription.");
    reveal_strlit("Welcome to our newsletter!<br />Click <a href=\"");
    reveal_strlit("\">here</a> to confirm your subscription.");
    reveal_strlit(
        "Welcome to our newsletter!\nVisit https://my-api.com/subscriptions/confirm to confirm your subscription.",
    );
    reveal_strlit(
        "Welcome to our newsletter!<br />Click <a href=\"https://my-api.com/subscriptions/confirm\">here</a> to confirm your subscription.",
    );
    assert(confirmation_text_body()
        =~= "Welcome to our newsletter!\nVisit https://my-api.com/subscriptions/confirm to confirm your subscription."@);
    assert(confirmation_html_body()
        =~= "Welcome to our newsletter!<br />Click <a href=\"https://my-api.com/subscriptions/confirm\">here</a> to confirm your subscription."@);
}

/// The email that asks a new subscriber to confirm the subscription.
pub struct ConfirmationEmail {
    pub recipient: SubscriberEmail,
    pub subject: String,
    pub html_body: String,
    pub text_body: String,
}

/// Builds the confirmation email for a new subscriber: sent to the
/// subscriber's address, with a plain text and an HTML body that both carry
/// the confirmation link.
pub fn confirmation_email(new_subscriber: NewSubscriber) -> (r: ConfirmationEmail)
    ensures
        r.recipient@ == new_subscriber.email@,
        r.subject@ == confirmation_subject(),
        r.text_body@ == confirmation_text_body(),
        r.html_body@ == confirmation_html_body(),
{
    let confirmation_link = "https://my-api.com/subscriptions/confirm";
    let mut plain_body = String::from_str("Welcome to our newsletter!\nVisit ");
    plain_body.append(confirmation_link);
    plain_body.append(" to confirm your subscription.");
    let mut html_body = String::from_str("Welcome to our newsletter!<br />Click <a href=\"");
    html_body.append(confirmation_link);
    html_body.append("\">here</a> to confirm your subscription.");
    ConfirmationEmail {
        recipient: new_subscriber.email,
        subject: String::from_str("Welcome!"),
        html_body,
        text_body: plain_body,
    }
}

/// The HTTP status and body of the reply to a subscription request.
pub struct Reply {
    pub status: u16,
    pub body: String,
}

/// The values that a new subscription stores: the subscriber's email and name.
pub struct SubscriberRecord {
    pub email: String,
    pub name: String,
}

/// Where a subscription request stands.
pub enum SubscribeStage {
    /// Waiting for the submitted form.
    AwaitingForm,
    /// The subscriber was validated; waiting for the database insert.
    AwaitingInsert(NewSubscriber),
    /// The subscriber was stored; waiting for the confirmation email.
    AwaitingEmail,
    /// The reply was decided.
    Finished,
}

/// What the outside world reports to a subscription request.
pub enum SubscribeEvent {
    /// The form, or `None` when the request carried none.
    FormReceived(Option<FormData>),
    /// The insert's outcome, with the database error's text on failure.
    InsertFinished(Result<(), String>),
    /// The email's outcome, with the failure's debug text on failure.
    EmailFinished(Result<(), String>),
}

/// What a subscription request asks the outside world to do next.
pub enum SubscribeAction {
    /// Store a subscription with these values.
    Insert(SubscriberRecord),
    /// Send this email.
    SendEmail(ConfirmationEmail),
    /// Reply to the client.
    Respond(Reply),
}

/// Whether a stage expects an event: the form first, then the insert's
/// outcome, then the email's.
pub open spec fn expects(stage: SubscribeStage, event: SubscribeEvent) -> bool {
    match stage {
        SubscribeStage::AwaitingForm => event is FormReceived,
        SubscribeStage::AwaitingInsert(_) => event is InsertFinished,
        SubscribeStage::AwaitingEmail => event is EmailFinished,
        SubscribeStage::Finished => false,
    }
}

/// A request takes the form first, then the insert's outcome, then the
/// email's, and nothing once it is finished.
pub proof fn lemma_expected_events(stage: SubscribeStage, event: SubscribeEvent)
    ensures
        expects(stage, event) <==> {
            ||| stage is AwaitingForm && event is FormReceived
            ||| stage is AwaitingInsert && event is InsertFinished
            ||| stage is AwaitingEmail && event is EmailFinished
        },
{
}

/// Whether an action is the reply with this status and body.
pub open spec fn is_reply(action: SubscribeAction, status: u16, body: Seq<char>) -> bool {
    action matches SubscribeAction::Respond(reply) && reply.status == status && reply.body@ == body
}

/// Whether an action sends the confirmation email to `recipient`.
pub open spec fn sends_confirmation_to(action: SubscribeAction, recipient: Seq<char>) -> bool {
    action matches SubscribeAction::SendEmail(m) && {
        &&& m.recipient@ == recipient
        &&& m.subject@ == confirmation_subject()
        &&& m.text_body@ == confirmation_text_body()
        &&& m.html_body@ == confirmation_html_body()
    }
}

/// The step that a subscription request takes from `stage` on `event`: its
/// next stage and action.
pub open spec fn subscribe_transition(
    stage: SubscribeStage,
    event: SubscribeEvent,
    next: SubscribeStage,
    action: SubscribeAction,
) -> bool {
    match stage {
        SubscribeStage::AwaitingForm => match event {
            SubscribeEvent::FormReceived(None) => next is Finished && is_reply(
                action,
                400,
                "Missing fields"@,
            ),
            SubscribeEvent::FormReceived(Some(form)) => if is_valid_name(form.name@)
                && email_is_valid(form.email@) {
                &&& next matches SubscribeStage::AwaitingInsert(s) && s.name@ == form.name@
                    && s.email@ == form.email@
                &&& action matches SubscribeAction::Insert(record) && record.name@ == form.name@
                    && record.email@ == form.email@
            } else {
                next is Finished && is_reply(action, 400, "invalid form data"@)
            },
            _ => false,
        },
        SubscribeStage::AwaitingInsert(s) => match event {
            SubscribeEvent::InsertFinished(Ok(_)) => next is AwaitingEmail
                && sends_confirmation_to(action, s.email@),
            SubscribeEvent::InsertFinished(Err(e)) => next is Finished && is_reply(
                action,
                500,
                "Database error: "@ + e@,
            ),
            _ => false,
        },
        SubscribeStage::AwaitingEmail => match event {
            SubscribeEvent::EmailFinished(Ok(_)) => next is Finished && is_reply(
                action,
                200,
                "Received subscription"@,
            ),
            SubscribeEvent::EmailFinished(Err(e)) => next is Finished && is_reply(
                action,
                500,
                "invalid form data: "@ + e@,
            ),
            _ => false,
        },
        SubscribeStage::Finished => false,
    }
}

fn reply(status: u16, body: &str) -> (r: SubscribeAction)
    ensures
        is_reply(r, status, body@),
{
    SubscribeAction::Respond(Reply { status, body: String::from_str(body) })
}

fn reply_with_detail(status: u16, prefix: &str, detail: String) -> (r: SubscribeAction)
    ensures
        is_reply(r, status, prefix@ + detail@),
{
    let mut body = String::from_str(prefix);
    body.append(detail.as_str());
    SubscribeAction::Respond(Reply { status, body })
}

/// The values stored for a new subscriber.
pub fn subscriber_record(new_subscriber: &NewSubscriber) -> (r: SubscriberRecord)
    ensures
        r.email@ == new_subscriber.email@,
        r.name@ == new_subscriber.name@,
{
    SubscriberRecord {
        email: String::from_str(new_subscriber.email.as_ref()),
        name: String::from_str(new_subscriber.name.as_ref()),
    }
}

/// Decides a subscription request one event at a time: a missing or invalid
/// form is refused with 400; a valid one is stored; once stored, the
/// confirmation email is sent; a failure of either gives 500; success gives
/// 200.
pub fn subscribe_step(stage: SubscribeStage, event: SubscribeEvent) -> (r: (
    SubscribeStage,
    SubscribeAction,
))
    requires
        expects(stage, event),
    ensures
        subscribe_transition(stage, event, r.0, r.1),
{
    match (stage, event) {
        (SubscribeStage::AwaitingForm, SubscribeEvent::FormReceived(None)) => (
            SubscribeStage::Finished,
            reply(400, "Missing fields"),
        ),
        (SubscribeStage::AwaitingForm, SubscribeEvent::FormReceived(Some(form))) => {
            match NewSubscriber::try_from(form) {
                Ok(new_subscriber) => {
                    let record = subscriber_record(&new_subscriber);
                    (SubscribeStage::AwaitingInsert(new_subscriber), SubscribeAction::Insert(record))
                },
                Err(_) => (SubscribeStage::Finished, reply(400, "invalid form data")),
            }
        },
        (SubscribeStage::AwaitingInsert(new_subscriber), SubscribeEvent::InsertFinished(Ok(_))) => (
            SubscribeStage::AwaitingEmail,
            SubscribeAction::SendEmail(confirmation_email(new_subscriber)),
        ),
        (SubscribeStage::AwaitingInsert(_), SubscribeEvent::InsertFinished(Err(e))) => (
            SubscribeStage::Finished,
            reply_with_detail(500, "Database error: ", e),
        ),
        (SubscribeStage::AwaitingEmail, SubscribeEvent::EmailFinished(Ok(_))) => (
            SubscribeStage::Finished,
            reply(200, "Received subscription"),
        ),
        (SubscribeStage::AwaitingEmail, SubscribeEvent::EmailFinished(Err(e))) => (
            SubscribeStage::Finished,
            reply_with_detail(500, "invalid form data: ", e),
        ),
        _ => {
            // `expects` rules out every other pair of stage and event.
            proof {
                assert(false);
            }
            (SubscribeStage::Finished, reply(500, ""))
        },
    }
}

/// Whether `steps` is the run of one subscription request so far: it starts
/// waiting for the form, each step is a step of `subscribe_transition`
/// (stage, event, next stage, action), and each step starts where the one
/// before it ended.
pub open spec fn is_request_run(
    steps: Seq<(SubscribeStage, SubscribeEvent, SubscribeStage, SubscribeAction)>,
) -> bool {
    &&& steps.len() > 0 ==> steps[0].0 is AwaitingForm
    &&& forall|i: int|
        0 <= i < steps.len() ==> subscribe_transition(
            #[trigger] steps[i].0,
            steps[i].1,
            steps[i].2,
            steps[i].3,
        )
    &&& forall|i: int, j: int|
        #![trigger steps[i], steps[j]]
        0 <= i && j == i + 1 && j < steps.len() ==> steps[j].0 == steps[i].2
}

/// Over a whole request: at most three steps; the subscriber is stored at
/// most once, by the first step, and only from a form whose name and email
/// are valid; the confirmation email is sent at most once, by the second step,
/// only after that insert succeeded, and to the address that was stored.
pub proof fn lemma_request_stores_once_then_emails_once(
    steps: Seq<(SubscribeStage, SubscribeEvent, SubscribeStage, SubscribeAction)>,
)
    requires
        is_request_run(steps),
    ensures
        steps.len() <= 3,
        forall|i: int| 0 <= i < steps.len() && #[trigger] steps[i].3 is Insert ==> i == 0,
        forall|i: int| 0 <= i < steps.len() && #[trigger] steps[i].3 is SendEmail ==> i == 1,
        steps.len() > 0 && steps[0].3 is Insert ==> (steps[0].1 matches SubscribeEvent::FormReceived(
            Some(form),
        ) && is_valid_name(form.name@) && email_is_valid(form.email@)),
        steps.len() > 1 && steps[1].3 is SendEmail ==> {
            &&& steps[1].1 matches SubscribeEvent::InsertFinished(Ok(_))
            &&& steps[0].3 matches SubscribeAction::Insert(record) && sends_confirmation_to(
                steps[1].3,
                record.email@,
            )
        },
{
    if steps.len() > 0 {
        assert(subscribe_transition(steps[0].0, steps[0].1, steps[0].2, steps[0].3));
    }
    if steps.len() > 1 {
        assert(steps[1].0 == steps[0].2);
        assert(subscribe_transition(steps[1].0, steps[1].1, steps[1].2, steps[1].3));
    }
    if steps.len() > 2 {
        assert(steps[2].0 == steps[1].2);
        assert(subscribe_transition(steps[2].0, steps[2].1, steps[2].2, steps[2].3));
    }
    if steps.len() > 3 {
        assert(steps[3].0 == steps[2].2);
        assert(subscribe_transition(steps[3].0, steps[3].1, steps[3].2, steps[3].3));
    }
}

/// Every decision of a subscription request, step by step:
/// - no form: finished, 400 "Missing fields";
/// - a form whose name and email are both valid: the subscriber with exactly
///   that name and email is kept, and exactly those values are stored;
/// - any other form: finished, 400 "invalid form data";
/// - a failed insert with error text `e`: finished, 500 "Database error: {e}";
/// - a successful insert: the confirmation email goes to the stored address;
/// - a failed email with text `e`: finished, 500 "invalid form data: {e}";
/// - a sent email: finished, 200 "Received subscription".
pub proof fn lemma_subscribe_decisions(
    stage: SubscribeStage,
    event: SubscribeEvent,
    next: SubscribeStage,
    action: SubscribeAction,
)
    requires
        subscribe_transition(stage, event, next, action),
    ensures
        stage is AwaitingForm ==> (event matches SubscribeEvent::FormReceived(None) ==> {
            &&& next is Finished
            &&& (action matches SubscribeAction::Respond(r) && r.status == 400 && r.body@
                == "Missing fields"@)
        }),
        stage is AwaitingForm ==> (event matches SubscribeEvent::FormReceived(Some(form)) ==> (
        is_valid_name(form.name@) && email_is_valid(form.email@) ==> {
            &&& (next matches SubscribeStage::AwaitingInsert(s) && s.name@ == form.name@ && s.email@
                == form.email@)
            &&& (action matches SubscribeAction::Insert(record) && record.name@ == form.name@
                && record.email@ == form.email@)
        })),
        stage is AwaitingForm ==> (event matches SubscribeEvent::FormReceived(Some(form)) ==> (!(
        is_valid_name(form.name@) && email_is_valid(form.email@)) ==> {
            &&& next is Finished
            &&& (action matches SubscribeAction::Respond(r) && r.status == 400 && r.body@
                == "invalid form data"@)
        })),
        stage matches SubscribeStage::AwaitingInsert(s) ==> (event matches SubscribeEvent::InsertFinished(
            Ok(_),
        ) ==> {
            &&& next is AwaitingEmail
            &&& (action matches SubscribeAction::SendEmail(m) && m.recipient@ == s.email@)
        }),
        stage is AwaitingInsert ==> (event matches SubscribeEvent::InsertFinished(Err(e)) ==> {
            &&& next is Finished
            &&& (action matches SubscribeAction::Respond(r) && r.status == 500 && r.body@
                == "Database error: "@ + e@)
        }),
        stage is AwaitingEmail ==> (event matches SubscribeEvent::EmailFinished(Ok(_)) ==> {
            &&& next is Finished
            &&& (action matches SubscribeAction::Respond(r) && r.status == 200 && r.body@
                == "Received subscription"@)
        }),
        stage is AwaitingEmail ==> (event matches SubscribeEvent::EmailFinished(Err(e)) ==> {
            &&& next is Finished
            &&& (action matches SubscribeAction::Respond(r) && r.status == 500 && r.body@
                == "invalid form data: "@ + e@)
        }),
{
}

/// Only a subscriber whose name and email are both valid is ever stored.
pub proof fn lemma_only_valid_subscribers_are_stored(
    stage: SubscribeStage,
    event: SubscribeEvent,
    next: SubscribeStage,
    action: SubscribeAction,
)
    requires
        subscribe_transition(stage, event, next, action),
    ensures
        action matches SubscribeAction::Insert(record) ==> is_valid_name(record.name@)
            && email_is_valid(record.email@),
{
}

/// A request is finished exactly when a step replies to the client.
pub proof fn lemma_reply_finishes_request(
    stage: SubscribeStage,
    event: SubscribeEvent,
    next: SubscribeStage,
    action: SubscribeAction,
)
    requires
        subscribe_transition(stage, event, next, action),
    ensures
        action is Respond <==> next is Finished,
{
}

/// A request succeeds (status 200) only once the subscriber was stored and the
/// confirmation email was sent.
pub proof fn lemma_success_only_after_email_sent(
    stage: SubscribeStage,
    event: SubscribeEvent,
    next: SubscribeStage,
    action: SubscribeAction,
)
    requires
        subscribe_transition(stage, event, next, action),
    ensures
        action matches SubscribeAction::Respond(reply) && reply.status == 200 ==> stage is AwaitingEmail
            && event matches SubscribeEvent::EmailFinished(Ok(_)),
{
}

/// A request without a form, or with a form whose name or email is invalid,
/// is refused with status 400 and goes no further.
pub proof fn lemma_bad_forms_are_refused(
    event: SubscribeEvent,
    next: SubscribeStage,
    action: SubscribeAction,
)
    requires
        subscribe_transition(SubscribeStage::AwaitingForm, event, next, action),
        event matches SubscribeEvent::FormReceived(form) && (form matches Some(f) ==> !(
        is_valid_name(f.name@) && email_is_valid(f.email@))),
    ensures
        next is Finished,
        action matches SubscribeAction::Respond(reply) && reply.status == 400,
{
}

} // verus!
