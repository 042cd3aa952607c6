use email_newsletter::domain::new_subscriber::{NewSubscriber, NewSubscriberBody};
use email_newsletter::domain::subscriber::{Subscriber, SubscriberRow, Timestamp};
use email_newsletter::domain::subscriber_email::SubscriberEmail;
use email_newsletter::domain::subscriber_status::SubscriberStatus;
use email_newsletter::email_client::{EmailClient, TransportError};
use email_newsletter::routes::subscriptions::{
    advance_subscription, advance_subscription_with, begin_subscription, begin_subscription_with,
    confirmation_email_html, generate_subscription_token, subscription_status_code,
    subscription_token_key,
    CreateSubscriptionError, StoreTokenError, SubscriptionAction, SubscriptionEvent,
    SubscriptionState, TOKEN_LENGTH,
};
use linkify::{LinkFinder, LinkKind};

const ID: u128 = 0x936da01f_9abd_4d9d_80c7_02af85c822a8;
const ID_TEXT: &str = "936da01f-9abd-4d9d-80c7-02af85c822a8";
const NOW: Timestamp = Timestamp { seconds: 1_666_000_000, nanos: 123_456_789 };
const TOKEN: &str = "abcdefghijklmnopqrstuvwxyz0123";

fn body(name: &str, email: &str) -> NewSubscriberBody {
    NewSubscriberBody { name: name.to_string(), email: email.to_string() }
}

fn client() -> EmailClient {
    EmailClient::new(
        "http://mail.test".to_string(),
        SubscriberEmail::parse("news@letter.com".to_string()).unwrap(),
        "SECRET".to_string(),
        None,
    )
}

fn stored(id: u128, email: String, name: String, at: Timestamp, status: SubscriberStatus) -> Subscriber {
    Subscriber::from_row(SubscriberRow {
        id,
        email,
        name,
        status: status.as_str().to_string(),
        subscribed_at: at,
    })
    .unwrap()
}

/// Runs a request up to the point where the insert has been answered.
fn inserted(name: &str, email: &str) -> (SubscriptionState, Option<SubscriptionAction>) {
    let (state, action) = begin_subscription_with(body(name, email), ID, NOW);
    let row = match action {
        Some(SubscriptionAction::InsertSubscriber { id, email, name, subscribed_at, status }) => {
            stored(id, email, name, subscribed_at, status)
        }
        _ => panic!("an insert was expected"),
    };
    advance_subscription_with(
        state,
        SubscriptionEvent::Inserted(Ok(row)),
        TOKEN.to_string(),
        &client(),
        "http://localhost",
    )
}

fn links(html: &str) -> Vec<String> {
    LinkFinder::new()
        .links(html)
        .filter(|l| *l.kind() == LinkKind::Url)
        .map(|l| l.as_str().to_string())
        .collect()
}

#[test]
fn subscribe_returns_200_when_body_is_valid() {
    let (state, action) = inserted("Frank", "frank@test.com");
    assert!(matches!(action, Some(SubscriptionAction::StoreToken { .. })));
    let (state, action) = advance_subscription(
        state,
        SubscriptionEvent::TokenStored(Ok(())),
        &client(),
        "http://localhost",
    );
    assert!(matches!(action, Some(SubscriptionAction::SendEmail(_))));
    let (state, action) = advance_subscription(
        state,
        SubscriptionEvent::EmailSent(Ok(())),
        &client(),
        "http://localhost",
    );
    assert!(matches!(state, SubscriptionState::Done));
    match action {
        Some(SubscriptionAction::Respond(answer)) => {
            assert_eq!(201, subscription_status_code(&answer));
            let subscriber = answer.unwrap();
            assert_eq!(subscriber.id, ID);
            assert_eq!(subscriber.email.as_str(), "frank@test.com");
            assert_eq!(subscriber.name.as_str(), "Frank");
            assert_eq!(subscriber.status, SubscriberStatus::Pending);
            assert_eq!(subscriber.subscribed_at, NOW);
        }
        _ => panic!("a successful answer was expected"),
    }
}

#[test]
fn subscribe_persists_the_new_subscriber() {
    let (state, action) = begin_subscription_with(body("Test", "test@test.com"), ID, NOW);
    assert!(matches!(state, SubscriptionState::AwaitingInsert { .. }));
    match action {
        Some(SubscriptionAction::InsertSubscriber { id, email, name, subscribed_at, status }) => {
            assert_eq!(id, ID);
            assert_eq!(email, "test@test.com");
            assert_eq!(name, "Test");
            assert_eq!(subscribed_at, NOW);
            assert_eq!(status.as_ref(), "pending_confirmation");
        }
        _ => panic!("an insert was expected"),
    }
}

#[test]
fn subscribe_returns_400_when_body_require_field_is_missing() {
    let test_cases = vec![
        (body("", ""), "mising body parameters"),
        (body("Frank", ""), "missing email parameter"),
        (body("", "frank@test.com"), "missing name parameter"),
        (body("", "frank@test.com"), "name cannot be empty"),
    ];

    for (invalid_body, error_message) in test_cases {
        let (state, action) = begin_subscription(invalid_body);
        assert!(matches!(state, SubscriptionState::Done));
        match action {
            Some(SubscriptionAction::Respond(Err(error))) => assert_eq!(
                400,
                error.status_code(),
                "The API did not fail with 400 status when payload was {}",
                error_message
            ),
            _ => panic!("a refusal was expected when payload was {}", error_message),
        }
    }
}

#[test]
fn subscribe_returns_400_when_body_is_present_but_not_valid() {
    let test_cases = vec![
        (body("{Frank}", "test@test.com"), "invalid name parameter"),
        (body("Frank", "test.com"), "invalid email parameter"),
    ];

    for (invalid_body, error_message) in test_cases {
        let (state, action) = begin_subscription(invalid_body);
        assert!(matches!(state, SubscriptionState::Done));
        match action {
            Some(SubscriptionAction::Respond(Err(error))) => assert_eq!(
                400,
                error.status_code(),
                "The API did not fail with 400 status when payload was {}",
                error_message
            ),
            _ => panic!("a refusal was expected when payload was {}", error_message),
        }
    }
}

#[test]
fn subscribe_sends_a_confirmation_email_with_a_link() {
    let (state, _) = inserted("Test", "test@test.com");
    let (state, action) = advance_subscription(
        state,
        SubscriptionEvent::TokenStored(Ok(())),
        &client(),
        "http://localhost",
    );
    assert!(matches!(state, SubscriptionState::AwaitingEmail { .. }));
    let request = match action {
        Some(SubscriptionAction::SendEmail(request)) => request,
        _ => panic!("a message was expected"),
    };
    assert_eq!(request.url, "http://mail.test/mail/send");
    assert_eq!(request.authorization, "Bearer SECRET");
    assert_eq!(request.timeout_millis, 10_000);
    assert_eq!(request.body.from.email, "news@letter.com");
    assert_eq!(request.body.subject, "Welcome to our newsletter");
    assert_eq!(request.body.personalizations.len(), 1);
    assert_eq!(request.body.personalizations[0].to.len(), 1);
    assert_eq!(request.body.personalizations[0].to[0].email, "test@test.com");
    assert_eq!(request.body.content.len(), 1);
    assert_eq!(request.body.content[0].content_type, "text/html");
    let found = links(&request.body.content[0].value);
    assert_eq!(found.len(), 1);
    assert_eq!(found[0], format!("http://localhost/subscriptions/confirm?token={}", TOKEN));
}

#[test]
fn rejected_request_says_what_was_wrong() {
    let (_, action) = begin_subscription(body("{Frank}", "test.com"));
    match action {
        Some(SubscriptionAction::Respond(Err(CreateSubscriptionError::ValidationError(m)))) => {
            assert_eq!(m, "{Frank} is not a valid subscriber name")
        }
        _ => panic!("a validation error was expected"),
    }
    let (_, action) = begin_subscription(body("Frank", "test.com"));
    match action {
        Some(SubscriptionAction::Respond(Err(error))) => {
            assert_eq!(error.message(), "Validation error: test.com email is not valid");
            assert!(matches!(error, CreateSubscriptionError::ValidationError(_)));
        }
        _ => panic!("a validation error was expected"),
    }
}

#[test]
fn new_subscriber_is_checked_name_first() {
    assert_eq!(
        NewSubscriber::try_from(body("", "nobody")).err().unwrap(),
        " is not a valid subscriber name"
    );
    assert_eq!(
        NewSubscriber::try_from(body("Frank", "nobody")).err().unwrap(),
        "nobody email is not valid"
    );
    let accepted = NewSubscriber::try_from(body("Frank", "frank@test.com")).ok().unwrap();
    assert_eq!(accepted.name.as_str(), "Frank");
    assert_eq!(accepted.email.as_str(), "frank@test.com");
}

#[test]
fn accepted_request_draws_a_random_id_and_the_present_moment() {
    let (_, first) = begin_subscription(body("Frank", "frank@test.com"));
    let (_, second) = begin_subscription(body("Frank", "frank@test.com"));
    let (first_id, at) = match first {
        Some(SubscriptionAction::InsertSubscriber { id, subscribed_at, .. }) => (id, subscribed_at),
        _ => panic!("an insert was expected"),
    };
    let second_id = match second {
        Some(SubscriptionAction::InsertSubscriber { id, .. }) => id,
        _ => panic!("an insert was expected"),
    };
    assert_ne!(first_id, second_id);
    for id in [first_id, second_id] {
        assert_eq!((id >> 76) & 0xF, 4);
        assert_eq!((id >> 62) & 0x3, 2);
    }
    // Later than 2020-01-01 and with less than a second of nanoseconds.
    assert!(at.seconds > 1_577_836_800);
    assert!(at.nanos < 1_000_000_000);
}

#[test]
fn inserted_subscriber_gets_its_token_stored() {
    let (state, action) = inserted("Frank", "frank@test.com");
    match state {
        SubscriptionState::AwaitingTokenStore { email, subscriber, token } => {
            assert_eq!(email.as_str(), "frank@test.com");
            assert_eq!(subscriber.id, ID);
            assert_eq!(token, TOKEN);
        }
        _ => panic!("the token store was expected to be awaited"),
    }
    match action {
        Some(SubscriptionAction::StoreToken { key, value }) => {
            assert_eq!(key, format!("subscription_token:{}:subscriber_id", TOKEN));
            assert_eq!(value, ID_TEXT);
        }
        _ => panic!("a token was expected to be stored"),
    }
}

#[test]
fn inserted_subscriber_gets_a_fresh_token() {
    let (state, _) = begin_subscription_with(body("Frank", "frank@test.com"), ID, NOW);
    let row = stored(
        ID,
        "frank@test.com".to_string(),
        "Frank".to_string(),
        NOW,
        SubscriberStatus::Pending,
    );
    let (state, action) = advance_subscription(
        state,
        SubscriptionEvent::Inserted(Ok(row)),
        &client(),
        "http://localhost",
    );
    let token = match state {
        SubscriptionState::AwaitingTokenStore { token, .. } => token,
        _ => panic!("the token store was expected to be awaited"),
    };
    assert_eq!(token.chars().count(), 30);
    assert!(token.chars().all(|c| c.is_ascii_alphanumeric()));
    match action {
        Some(SubscriptionAction::StoreToken { key, value }) => {
            assert_eq!(key, format!("subscription_token:{}:subscriber_id", token));
            assert_eq!(value, ID_TEXT);
        }
        _ => panic!("a token was expected to be stored"),
    }
}

#[test]
fn failed_insert_answers_with_500_and_stores_no_token() {
    let (state, _) = begin_subscription_with(body("Frank", "frank@test.com"), ID, NOW);
    let (state, action) = advance_subscription(
        state,
        SubscriptionEvent::Inserted(Err("connection refused".to_string())),
        &client(),
        "http://localhost",
    );
    assert!(matches!(state, SubscriptionState::Done));
    match action {
        Some(SubscriptionAction::Respond(Err(error))) => {
            assert_eq!(error.status_code(), 500);
            assert_eq!(error.message(), "Failed to insert a new subscriber into the database.");
            match error {
                CreateSubscriptionError::InsertSubscriptionError(cause) => {
                    assert_eq!(cause, "connection refused")
                }
                _ => panic!("an insert error was expected"),
            }
        }
        _ => panic!("a failure was expected"),
    }
}

#[test]
fn failed_token_store_answers_with_500_and_sends_no_email() {
    let (state, _) = inserted("Frank", "frank@test.com");
    let (state, action) = advance_subscription(
        state,
        SubscriptionEvent::TokenStored(Err("broken pipe".to_string())),
        &client(),
        "http://localhost",
    );
    assert!(matches!(state, SubscriptionState::Done));
    match action {
        Some(SubscriptionAction::Respond(Err(error))) => {
            assert_eq!(error.status_code(), 500);
            assert_eq!(
                error.message(),
                "Failed to store the confirmation token for a new subscriber."
            );
            match error {
                CreateSubscriptionError::StoreTokenError(StoreTokenError(cause)) => {
                    assert_eq!(cause, "broken pipe")
                }
                _ => panic!("a token store error was expected"),
            }
        }
        _ => panic!("a failure was expected"),
    }
}

#[test]
fn failed_email_answers_with_500() {
    let (state, _) = inserted("Frank", "frank@test.com");
    let (state, _) = advance_subscription(
        state,
        SubscriptionEvent::TokenStored(Ok(())),
        &client(),
        "http://localhost",
    );
    let (state, action) = advance_subscription(
        state,
        SubscriptionEvent::EmailSent(Err(TransportError::Status(503))),
        &client(),
        "http://localhost",
    );
    assert!(matches!(state, SubscriptionState::Done));
    match action {
        Some(SubscriptionAction::Respond(Err(error))) => {
            assert_eq!(error.status_code(), 500);
            assert_eq!(
                error.message(),
                "Failed to send a confirmation email to a new subscriber."
            );
            assert!(matches!(
                error,
                CreateSubscriptionError::SendEmailError(TransportError::Status(503))
            ));
        }
        _ => panic!("a failure was expected"),
    }
}

#[test]
fn event_that_answers_nothing_awaited_changes_nothing() {
    let (state, _) = begin_subscription_with(body("Frank", "frank@test.com"), ID, NOW);
    let (state, action) = advance_subscription(
        state,
        SubscriptionEvent::EmailSent(Ok(())),
        &client(),
        "http://localhost",
    );
    assert!(action.is_none());
    match state {
        SubscriptionState::AwaitingInsert { email } => assert_eq!(email.as_str(), "frank@test.com"),
        _ => panic!("the insert was expected to be awaited still"),
    }
    let (state, action) = advance_subscription(
        SubscriptionState::Done,
        SubscriptionEvent::TokenStored(Ok(())),
        &client(),
        "http://localhost",
    );
    assert!(action.is_none());
    assert!(matches!(state, SubscriptionState::Done));
}

#[test]
fn tokens_are_thirty_letters_and_digits() {
    assert_eq!(TOKEN_LENGTH, 30);
    let mut seen = std::collections::HashSet::new();
    for _ in 0..200 {
        let token = generate_subscription_token();
        assert_eq!(token.len(), 30);
        assert!(token.bytes().all(|b| b.is_ascii_alphanumeric()));
        seen.insert(token);
    }
    assert!(seen.len() > 1);
}

#[test]
fn token_key_wraps_the_token() {
    assert_eq!(subscription_token_key("abc"), "subscription_token:abc:subscriber_id");
    assert_eq!(subscription_token_key(""), "subscription_token::subscriber_id");
}

#[test]
fn confirmation_email_holds_the_link_once() {
    let html = confirmation_email_html("https://news.test", "tok123");
    let expected = format!(
        r#"
            <div>
                <h1>Welcome to our newsletter!</>
                <p>Click <a href="{}">here</a> to confirm your subscription!</p>
            </div>
        "#,
        "https://news.test/subscriptions/confirm?token=tok123"
    );
    assert_eq!(html, expected);
    assert_eq!(links(&html), vec!["https://news.test/subscriptions/confirm?token=tok123"]);
}

#[test]
fn store_token_error_has_its_own_message() {
    assert_eq!(
        StoreTokenError("x".to_string()).message(),
        "A database error was encountered while storing a subscription token."
    );
}
