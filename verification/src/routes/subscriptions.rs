//! Subscribing: validate the request, insert the pending subscriber, store
//! a confirmation token for it and send the confirmation email.

use crate::domain::new_subscriber::{
    invalid_request_message, is_valid_request, NewSubscriber, NewSubscriberBody,
};
use crate::domain::subscriber::{
    id_text, is_random_id, new_subscriber_id, now_utc, subscriber_id_text, Subscriber,
    SubscriberView, Timestamp,
};
use crate::domain::subscriber_email::SubscriberEmail;
use crate::domain::subscriber_status::SubscriberStatus;
use crate::email_client::{
    email_request, EmailClient, EmailClientView, EmailRequest, EmailRequestView, TransportError,
    TransportErrorView,
};
use crate::text::push_char;
use vstd::prelude::*;
use vstd::string::*;

verus! {

/// The number of characters of a confirmation token.
pub const TOKEN_LENGTH: usize = 30;

/// Whether a byte is an ASCII letter or digit.
pub open spec fn is_alphanumeric_byte(b: u8) -> bool {
    (0x30 <= b <= 0x39) || (0x41 <= b <= 0x5A) || (0x61 <= b <= 0x7A)
}

/// Whether a text has the shape of a confirmation token: thirty ASCII
/// letters and digits.
pub open spec fn is_token(text: Seq<char>) -> bool {
    &&& text.len() == TOKEN_LENGTH
    &&& forall|i: int|
        0 <= i < text.len() ==> (#[trigger] text[i]) as u32 <= 0x7F && is_alphanumeric_byte(
            text[i] as u8,
        )
}

/// Draws one byte with `rand::Rng::sample` from the thread's generator
/// under `rand::distributions::Alphanumeric`, which yields ASCII letters
/// and digits only.
#[verifier::external_body]
fn sample_alphanumeric() -> (b: u8)
    ensures
        is_alphanumeric_byte(b),
{
    rand::Rng::sample(&mut rand::thread_rng(), rand::distributions::Alphanumeric)
}

/// Draws a confirmation token at random.
pub fn generate_subscription_token() -> (token: String)
    ensures
        is_token(token@),
{
    let mut token = String::new();
    let mut i: usize = 0;
    while i < TOKEN_LENGTH
        invariant
            i <= TOKEN_LENGTH,
            token@.len() == i,
            forall|j: int|
                0 <= j < token@.len() ==> (#[trigger] token@[j]) as u32 <= 0x7F
                    && is_alphanumeric_byte(token@[j] as u8),
        decreases TOKEN_LENGTH - i,
    {
        let b = sample_alphanumeric();
        push_char(&mut token, b as char);
        i = i + 1;
    }
    token
}

/// The key under which the token store holds the subscriber of a token.
pub open spec fn token_key(token: Seq<char>) -> Seq<char> {
    "subscription_token:"@ + token + ":subscriber_id"@
}

/// The key under which the token store holds the subscriber of a token.
pub fn subscription_token_key(token: &str) -> (key: String)
    ensures
        key@ == token_key(token@),
{
    String::from_str("subscription_token:").concat(token).concat(":subscriber_id")
}

/// The address that confirms the subscription of a token.
pub open spec fn confirmation_link(base_url: Seq<char>, token: Seq<char>) -> Seq<char> {
    base_url + "/subscriptions/confirm?token="@ + token
}

/// The subject of the confirmation email.
pub open spec fn confirmation_subject() -> Seq<char> {
    "Welcome to our newsletter"@
}

/// The body of the confirmation email around a link.
pub open spec fn confirmation_html(link: Seq<char>) -> Seq<char> {
    "\n            <div>\n                <h1>Welcome to our newsletter!</>\n                <p>Click <a href=\""@
        + link
        + "\">here</a> to confirm your subscription!</p>\n            </div>\n        "@
}

/// The body of the confirmation email for a token.
pub fn confirmation_email_html(base_url: &str, subscription_token: &str) -> (html: String)
    ensures
        html@ == confirmation_html(confirmation_link(base_url@, subscription_token@)),
{
    let confirmation_link = String::from_str(base_url).concat(
        "/subscriptions/confirm?token=",
    ).concat(subscription_token);
    String::from_str(
        "\n            <div>\n                <h1>Welcome to our newsletter!</>\n                <p>Click <a href=\"",
    ).concat(confirmation_link.as_str()).concat(
        "\">here</a> to confirm your subscription!</p>\n            </div>\n        ",
    )
}

/// The token store failed; the text is what it reported.
#[derive(Debug)]
pub struct StoreTokenError(pub String);

impl StoreTokenError {
    /// What the failure is, in words.
    pub fn message(&self) -> (text: String)
        ensures
            text@ == "A database error was encountered while storing a subscription token."@,
    {
        String::from_str("A database error was encountered while storing a subscription token.")
    }
}

/// Why a request to subscribe failed.
#[derive(Debug)]
pub enum CreateSubscriptionError {
    /// The name or the address was refused; the text says which.
    ValidationError(String),
    /// The token store failed.
    StoreTokenError(StoreTokenError),
    /// The confirmation email was not delivered.
    SendEmailError(TransportError),
    /// The relational store failed; the text is what it reported.
    InsertSubscriptionError(String),
}

/// A failed request to subscribe as mathematical data.
pub enum CreateSubscriptionErrorView {
    ValidationError(Seq<char>),
    StoreTokenError(Seq<char>),
    SendEmailError(TransportErrorView),
    InsertSubscriptionError(Seq<char>),
}

impl View for CreateSubscriptionError {
    type V = CreateSubscriptionErrorView;

    open spec fn view(&self) -> CreateSubscriptionErrorView {
        match self {
            CreateSubscriptionError::ValidationError(message) => {
                CreateSubscriptionErrorView::ValidationError(message@)
            },
            CreateSubscriptionError::StoreTokenError(cause) => {
                CreateSubscriptionErrorView::StoreTokenError(cause.0@)
            },
            CreateSubscriptionError::SendEmailError(cause) => {
                CreateSubscriptionErrorView::SendEmailError(cause@)
            },
            CreateSubscriptionError::InsertSubscriptionError(cause) => {
                CreateSubscriptionErrorView::InsertSubscriptionError(cause@)
            },
        }
    }
}

/// The HTTP status that reports a failed request to subscribe: 400 where
/// the request was refused, 500 where a store or the provider failed.
pub open spec fn create_subscription_status(error: CreateSubscriptionErrorView) -> u16 {
    match error {
        CreateSubscriptionErrorView::ValidationError(_) => 400,
        _ => 500,
    }
}

/// What a failed request to subscribe is, in words.
pub open spec fn create_subscription_message(error: CreateSubscriptionErrorView) -> Seq<char> {
    match error {
        CreateSubscriptionErrorView::ValidationError(message) => "Validation error: "@ + message,
        CreateSubscriptionErrorView::StoreTokenError(_) => {
            "Failed to store the confirmation token for a new subscriber."@
        },
        CreateSubscriptionErrorView::SendEmailError(_) => {
            "Failed to send a confirmation email to a new subscriber."@
        },
        CreateSubscriptionErrorView::InsertSubscriptionError(_) => {
            "Failed to insert a new subscriber into the database."@
        },
    }
}

impl CreateSubscriptionError {
    /// The HTTP status that reports the failure.
    pub fn status_code(&self) -> (status: u16)
        ensures
            status == create_subscription_status(self@),
    {
        match self {
            Self::ValidationError(_) => 400,
            _ => 500,
        }
    }

    /// What the failure is, in words.
    pub fn message(&self) -> (text: String)
        ensures
            text@ == create_subscription_message(self@),
    {
        match self {
            Self::ValidationError(message) => String::from_str("Validation error: ").concat(
                message.as_str(),
            ),
            Self::StoreTokenError(_) => String::from_str(
                "Failed to store the confirmation token for a new subscriber.",
            ),
            Self::SendEmailError(_) => String::from_str(
                "Failed to send a confirmation email to a new subscriber.",
            ),
            Self::InsertSubscriptionError(_) => String::from_str(
                "Failed to insert a new subscriber into the database.",
            ),
        }
    }
}

/// The HTTP status that answers a request to subscribe: 201 where the
/// subscriber was created, else the status of the failure.
pub open spec fn subscription_response_status(
    answer: Result<SubscriberView, CreateSubscriptionErrorView>,
) -> u16 {
    match answer {
        Ok(_) => 201,
        Err(error) => create_subscription_status(error),
    }
}

/// The HTTP status that answers a request to subscribe.
pub fn subscription_status_code(answer: &Result<Subscriber, CreateSubscriptionError>) -> (status:
    u16)
    ensures
        status == subscription_response_status(
            match answer {
                Ok(subscriber) => Ok(subscriber@),
                Err(error) => Err(error@),
            },
        ),
{
    match answer {
        Ok(_) => 201,
        Err(error) => error.status_code(),
    }
}

/// How far a request to subscribe has come.
pub enum SubscriptionState {
    /// The pending subscriber is being inserted.
    AwaitingInsert { email: SubscriberEmail },
    /// The token of the inserted subscriber is being stored.
    AwaitingTokenStore { email: SubscriberEmail, subscriber: Subscriber, token: String },
    /// The confirmation email is being sent.
    AwaitingEmail { subscriber: Subscriber },
    /// The request was answered.
    Done,
}

/// What is to be done next for a request to subscribe.
pub enum SubscriptionAction {
    /// Insert a row into the subscriber table.
    InsertSubscriber {
        id: u128,
        email: String,
        name: String,
        subscribed_at: Timestamp,
        status: SubscriberStatus,
    },
    /// Set a key of the token store.
    StoreToken { key: String, value: String },
    /// Send a message through the email provider.
    SendEmail(EmailRequest),
    /// Answer the request.
    Respond(Result<Subscriber, CreateSubscriptionError>),
}

/// How an action of a request to subscribe ended.
pub enum SubscriptionEvent {
    /// The insert returned the stored subscriber, or the store failed.
    Inserted(Result<Subscriber, String>),
    /// The key was set, or the token store failed.
    TokenStored(Result<(), String>),
    /// The message was delivered, or it was not.
    EmailSent(Result<(), TransportError>),
}

/// A state of a request to subscribe as mathematical data.
pub enum SubscriptionStateView {
    AwaitingInsert { email: Seq<char> },
    AwaitingTokenStore { email: Seq<char>, subscriber: SubscriberView, token: Seq<char> },
    AwaitingEmail { subscriber: SubscriberView },
    Done,
}

/// An action of a request to subscribe as mathematical data.
pub enum SubscriptionActionView {
    InsertSubscriber {
        id: u128,
        email: Seq<char>,
        name: Seq<char>,
        subscribed_at: Timestamp,
        status: SubscriberStatus,
    },
    StoreToken { key: Seq<char>, value: Seq<char> },
    SendEmail(EmailRequestView),
    Respond(Result<SubscriberView, CreateSubscriptionErrorView>),
}

/// An event of a request to subscribe as mathematical data.
pub enum SubscriptionEventView {
    Inserted(Result<SubscriberView, Seq<char>>),
    TokenStored(Result<(), Seq<char>>),
    EmailSent(Result<(), TransportErrorView>),
}

impl View for SubscriptionState {
    type V = SubscriptionStateView;

    open spec fn view(&self) -> SubscriptionStateView {
        match self {
            SubscriptionState::AwaitingInsert { email } => SubscriptionStateView::AwaitingInsert {
                email: email@,
            },
            SubscriptionState::AwaitingTokenStore { email, subscriber, token } => {
                SubscriptionStateView::AwaitingTokenStore {
                    email: email@,
                    subscriber: subscriber@,
                    token: token@,
                }
            },
            SubscriptionState::AwaitingEmail { subscriber } => {
                SubscriptionStateView::AwaitingEmail { subscriber: subscriber@ }
            },
            SubscriptionState::Done => SubscriptionStateView::Done,
        }
    }
}

impl View for SubscriptionAction {
    type V = SubscriptionActionView;

    open spec fn view(&self) -> SubscriptionActionView {
        match self {
            SubscriptionAction::InsertSubscriber { id, email, name, subscribed_at, status } => {
                SubscriptionActionView::InsertSubscriber {
                    id: *id,
                    email: email@,
                    name: name@,
                    subscribed_at: *subscribed_at,
                    status: *status,
                }
            },
            SubscriptionAction::StoreToken { key, value } => SubscriptionActionView::StoreToken {
                key: key@,
                value: value@,
            },
            SubscriptionAction::SendEmail(request) => SubscriptionActionView::SendEmail(request@),
            SubscriptionAction::Respond(Ok(subscriber)) => SubscriptionActionView::Respond(
                Ok(subscriber@),
            ),
            SubscriptionAction::Respond(Err(error)) => SubscriptionActionView::Respond(
                Err(error@),
            ),
        }
    }
}

impl View for SubscriptionEvent {
    type V = SubscriptionEventView;

    open spec fn view(&self) -> SubscriptionEventView {
        match self {
            SubscriptionEvent::Inserted(Ok(subscriber)) => SubscriptionEventView::Inserted(
                Ok(subscriber@),
            ),
            SubscriptionEvent::Inserted(Err(cause)) => SubscriptionEventView::Inserted(
                Err(cause@),
            ),
            SubscriptionEvent::TokenStored(Ok(_)) => SubscriptionEventView::TokenStored(Ok(())),
            SubscriptionEvent::TokenStored(Err(cause)) => SubscriptionEventView::TokenStored(
                Err(cause@),
            ),
            SubscriptionEvent::EmailSent(Ok(_)) => SubscriptionEventView::EmailSent(Ok(())),
            SubscriptionEvent::EmailSent(Err(cause)) => SubscriptionEventView::EmailSent(
                Err(cause@),
            ),
        }
    }
}

/// The view of what a step hands back: the next state and, if there is
/// something to do, the action.
pub open spec fn subscription_turn(
    turn: (SubscriptionState, Option<SubscriptionAction>),
) -> (SubscriptionStateView, Option<SubscriptionActionView>) {
    (
        turn.0@,
        match turn.1 {
            Some(action) => Some(action@),
            None => None,
        },
    )
}

/// How a request to subscribe begins, for the id and the moment that the
/// new subscriber would get. A request that is not accepted is answered
/// at once and nothing is inserted; an accepted one has its subscriber
/// inserted as pending.
pub open spec fn subscription_start(
    name: Seq<char>,
    email: Seq<char>,
    id: u128,
    now: Timestamp,
) -> (SubscriptionStateView, Option<SubscriptionActionView>) {
    if is_valid_request(name, email) {
        (
            SubscriptionStateView::AwaitingInsert { email },
            Some(
                SubscriptionActionView::InsertSubscriber {
                    id,
                    email,
                    name,
                    subscribed_at: now,
                    status: SubscriberStatus::Pending,
                },
            ),
        )
    } else {
        (
            SubscriptionStateView::Done,
            Some(
                SubscriptionActionView::Respond(
                    Err(
                        CreateSubscriptionErrorView::ValidationError(
                            invalid_request_message(name, email),
                        ),
                    ),
                ),
            ),
        )
    }
}

/// How a request to subscribe goes on when an action has ended, for the
/// token that an inserted subscriber would get. A failure answers the
/// request with the error of the step that failed, and nothing earlier is
/// undone. An event that does not answer the action awaited changes
/// nothing.
pub open spec fn subscription_step(
    state: SubscriptionStateView,
    event: SubscriptionEventView,
    token: Seq<char>,
    client: EmailClientView,
    base_url: Seq<char>,
) -> (SubscriptionStateView, Option<SubscriptionActionView>) {
    match (state, event) {
        (
            SubscriptionStateView::AwaitingInsert { email },
            SubscriptionEventView::Inserted(Ok(subscriber)),
        ) => (
            SubscriptionStateView::AwaitingTokenStore { email, subscriber, token },
            Some(
                SubscriptionActionView::StoreToken {
                    key: token_key(token),
                    value: id_text(subscriber.id),
                },
            ),
        ),
        (
            SubscriptionStateView::AwaitingInsert { .. },
            SubscriptionEventView::Inserted(Err(cause)),
        ) => (
            SubscriptionStateView::Done,
            Some(
                SubscriptionActionView::Respond(
                    Err(CreateSubscriptionErrorView::InsertSubscriptionError(cause)),
                ),
            ),
        ),
        (
            SubscriptionStateView::AwaitingTokenStore { email, subscriber, token: stored },
            SubscriptionEventView::TokenStored(Ok(_)),
        ) => (
            SubscriptionStateView::AwaitingEmail { subscriber },
            Some(
                SubscriptionActionView::SendEmail(
                    email_request(
                        client,
                        seq![email],
                        confirmation_subject(),
                        confirmation_html(confirmation_link(base_url, stored)),
                    ),
                ),
            ),
        ),
        (
            SubscriptionStateView::AwaitingTokenStore { .. },
            SubscriptionEventView::TokenStored(Err(cause)),
        ) => (
            SubscriptionStateView::Done,
            Some(
                SubscriptionActionView::Respond(
                    Err(CreateSubscriptionErrorView::StoreTokenError(cause)),
                ),
            ),
        ),
        (
            SubscriptionStateView::AwaitingEmail { subscriber },
            SubscriptionEventView::EmailSent(Ok(_)),
        ) => (
            SubscriptionStateView::Done,
            Some(SubscriptionActionView::Respond(Ok(subscriber))),
        ),
        (
            SubscriptionStateView::AwaitingEmail { .. },
            SubscriptionEventView::EmailSent(Err(cause)),
        ) => (
            SubscriptionStateView::Done,
            Some(
                SubscriptionActionView::Respond(
                    Err(CreateSubscriptionErrorView::SendEmailError(cause)),
                ),
            ),
        ),
        _ => (state, None),
    }
}

/// Begins a request to subscribe for a given id and moment.
pub fn begin_subscription_with(body: NewSubscriberBody, id: u128, now: Timestamp) -> (turn: (
    SubscriptionState,
    Option<SubscriptionAction>,
))
    ensures
        subscription_turn(turn) == subscription_start(body.name@, body.email@, id, now),
{
    match NewSubscriber::try_from(body) {
        Err(message) => (
            SubscriptionState::Done,
            Some(SubscriptionAction::Respond(Err(CreateSubscriptionError::ValidationError(message)))),
        ),
        Ok(new_subscriber) => {
            let email = String::from_str(new_subscriber.email.as_str());
            let name = String::from_str(new_subscriber.name.as_str());
            (
                SubscriptionState::AwaitingInsert { email: new_subscriber.email },
                Some(
                    SubscriptionAction::InsertSubscriber {
                        id,
                        email,
                        name,
                        subscribed_at: now,
                        status: SubscriberStatus::Pending,
                    },
                ),
            )
        },
    }
}

/// Begins a request to subscribe: an accepted request gets a fresh random
/// id and the present moment.
pub fn begin_subscription(body: NewSubscriberBody) -> (turn: (
    SubscriptionState,
    Option<SubscriptionAction>,
))
    ensures
        exists|id: u128, now: Timestamp|
            is_random_id(id) && subscription_turn(turn) == #[trigger] subscription_start(
                body.name@,
                body.email@,
                id,
                now,
            ),
{
    let id = new_subscriber_id();
    let now = now_utc();
    begin_subscription_with(body, id, now)
}

/// Goes on with a request to subscribe for a given token.
pub fn advance_subscription_with(
    state: SubscriptionState,
    event: SubscriptionEvent,
    token: String,
    email_client: &EmailClient,
    base_url: &str,
) -> (turn: (SubscriptionState, Option<SubscriptionAction>))
    ensures
        subscription_turn(turn) == subscription_step(
            state@,
            event@,
            token@,
            email_client@,
            base_url@,
        ),
{
    match (state, event) {
        (SubscriptionState::AwaitingInsert { email }, SubscriptionEvent::Inserted(Ok(subscriber))) => {
            let key = subscription_token_key(token.as_str());
            let value = subscriber_id_text(subscriber.id);
            (
                SubscriptionState::AwaitingTokenStore { email, subscriber, token },
                Some(SubscriptionAction::StoreToken { key, value }),
            )
        },
        (SubscriptionState::AwaitingInsert { .. }, SubscriptionEvent::Inserted(Err(cause))) => (
            SubscriptionState::Done,
            Some(
                SubscriptionAction::Respond(
                    Err(CreateSubscriptionError::InsertSubscriptionError(cause)),
                ),
            ),
        ),
        (
            SubscriptionState::AwaitingTokenStore { email, subscriber, token: stored },
            SubscriptionEvent::TokenStored(Ok(_)),
        ) => {
            let html_body = confirmation_email_html(base_url, stored.as_str());
            let request = email_client.send_email_request(
                email,
                "Welcome to our newsletter",
                html_body.as_str(),
            );
            (
                SubscriptionState::AwaitingEmail { subscriber },
                Some(SubscriptionAction::SendEmail(request)),
            )
        },
        (
            SubscriptionState::AwaitingTokenStore { .. },
            SubscriptionEvent::TokenStored(Err(cause)),
        ) => (
            SubscriptionState::Done,
            Some(
                SubscriptionAction::Respond(
                    Err(CreateSubscriptionError::StoreTokenError(StoreTokenError(cause))),
                ),
            ),
        ),
        (SubscriptionState::AwaitingEmail { subscriber }, SubscriptionEvent::EmailSent(Ok(_))) => (
            SubscriptionState::Done,
            Some(SubscriptionAction::Respond(Ok(subscriber))),
        ),
        (SubscriptionState::AwaitingEmail { .. }, SubscriptionEvent::EmailSent(Err(cause))) => (
            SubscriptionState::Done,
            Some(SubscriptionAction::Respond(Err(CreateSubscriptionError::SendEmailError(cause)))),
        ),
        (state, _) => (state, None),
    }
}

/// Whether a step draws a token: it does when the insert has succeeded.
pub open spec fn draws_token(state: SubscriptionStateView, event: SubscriptionEventView) -> bool {
    state is AwaitingInsert && event matches SubscriptionEventView::Inserted(Ok(_))
}

/// Goes on with a request to subscribe: an inserted subscriber gets a
/// token drawn at random.
pub fn advance_subscription(
    state: SubscriptionState,
    event: SubscriptionEvent,
    email_client: &EmailClient,
    base_url: &str,
) -> (turn: (SubscriptionState, Option<SubscriptionAction>))
    ensures
        exists|token: Seq<char>|
            (draws_token(state@, event@) ==> is_token(token)) && subscription_turn(turn)
                == #[trigger] subscription_step(state@, event@, token, email_client@, base_url@),
{
    let inserted = match (&state, &event) {
        (SubscriptionState::AwaitingInsert { .. }, SubscriptionEvent::Inserted(Ok(_))) => true,
        _ => false,
    };
    let token = if inserted {
        generate_subscription_token()
    } else {
        String::new()
    };
    advance_subscription_with(state, event, token, email_client, base_url)
}

} // verus!
