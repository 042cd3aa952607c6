use email_newsletter::domain::subscriber_email::SubscriberEmail;
use email_newsletter::domain::subscriber_status::SubscriberStatus;
use email_newsletter::email_client::{EmailClient, TransportError};
use email_newsletter::routes::newsletters::{
    advance_broadcast, begin_broadcast, broadcast_status_code, parse_confirmed_emails,
    BroadcastAction, BroadcastEvent, BroadcastState, NewNewsletter, NewsletterContent,
    PublishNewsletterError,
};

fn issue(title: &str, html: &str) -> NewNewsletter {
    NewNewsletter { title: title.to_string(), content: NewsletterContent { html: html.to_string() } }
}

fn client() -> EmailClient {
    EmailClient::new(
        "http://mail.test".to_string(),
        SubscriberEmail::parse("news@letter.com".to_string()).unwrap(),
        "SECRET".to_string(),
        Some(250),
    )
}

fn emails(addresses: &[&str]) -> Vec<SubscriberEmail> {
    addresses.iter().map(|a| SubscriberEmail::parse(a.to_string()).unwrap()).collect()
}

#[test]
fn newsletters_are_not_delivered_to_unconfirmed_subscribers() {
    let (state, action) = begin_broadcast(issue("Newsletter title", "<p>Newsletter content</p>"));
    // Only the confirmed subscribers are asked for: here there is none.
    assert!(matches!(
        action,
        Some(BroadcastAction::GetSubscribers { status: SubscriberStatus::Confirmed })
    ));
    let (state, action) =
        advance_broadcast(state, BroadcastEvent::Subscribers(Ok(Vec::new())), &client());

    assert!(matches!(state, BroadcastState::Done));
    match action {
        Some(BroadcastAction::Respond(answer)) => {
            assert_eq!(broadcast_status_code(&answer), 200);
            assert!(answer.is_ok());
        }
        _ => panic!("an answer was expected"),
    }
}

#[test]
fn newsletters_are_delivered_to_confirmed_subscribers() {
    let (state, _) = begin_broadcast(issue("Newsletter title", "<p>Newsletter content</p>"));
    let (state, action) = advance_broadcast(
        state,
        BroadcastEvent::Subscribers(Ok(emails(&["test@test.com"]))),
        &client(),
    );
    assert!(matches!(state, BroadcastState::AwaitingEmail));
    let request = match action {
        Some(BroadcastAction::SendEmail(request)) => request,
        _ => panic!("a message was expected"),
    };
    assert_eq!(request.url, "http://mail.test/mail/send");
    assert_eq!(request.authorization, "Bearer SECRET");
    assert_eq!(request.timeout_millis, 250);
    assert_eq!(request.body.subject, "Newsletter title");
    assert_eq!(request.body.from.email, "news@letter.com");
    assert_eq!(request.body.content.len(), 1);
    assert_eq!(request.body.content[0].content_type, "text/html");
    assert_eq!(request.body.content[0].value, "<p>Newsletter content</p>");
    assert_eq!(request.body.personalizations.len(), 1);
    assert_eq!(request.body.personalizations[0].to.len(), 1);
    assert_eq!(request.body.personalizations[0].to[0].email, "test@test.com");

    let (state, action) = advance_broadcast(state, BroadcastEvent::EmailSent(Ok(())), &client());
    assert!(matches!(state, BroadcastState::Done));
    assert!(matches!(action, Some(BroadcastAction::Respond(Ok(())))));
}

#[test]
fn newsletters_returns_400_when_body_is_invalid() {
    let test_cases = vec![
        (issue("", "<p>Newsletter content</p>"), "missing title"),
        (issue("Newsletter title", ""), "missing content"),
    ];

    for (invalid_body, error_message) in test_cases {
        let (state, action) = begin_broadcast(invalid_body);
        assert!(matches!(state, BroadcastState::Done));
        match action {
            Some(BroadcastAction::Respond(Err(error))) => assert_eq!(
                400,
                error.status_code(),
                "The API did not fail with 400 status when payload was {}",
                error_message
            ),
            _ => panic!("a refusal was expected when payload was {}", error_message),
        }
    }
}

#[test]
fn broadcast_with_no_confirmed_subscriber_sends_nothing() {
    let (state, _) = begin_broadcast(issue("T", "<p>x</p>"));
    let (state, action) =
        advance_broadcast(state, BroadcastEvent::Subscribers(Ok(Vec::new())), &client());

    assert!(matches!(state, BroadcastState::Done));
    assert!(matches!(action, Some(BroadcastAction::Respond(Ok(())))));
}

#[test]
fn broadcast_goes_to_all_confirmed_subscribers_in_one_message() {
    let (state, _) = begin_broadcast(issue("T", "<p>x</p>"));
    let (_, action) = advance_broadcast(
        state,
        BroadcastEvent::Subscribers(Ok(emails(&["a@test.com", "b@test.com", "c@test.com"]))),
        &client(),
    );
    let request = match action {
        Some(BroadcastAction::SendEmail(request)) => request,
        _ => panic!("a message was expected"),
    };
    assert_eq!(request.body.personalizations.len(), 1);
    let to: Vec<&str> =
        request.body.personalizations[0].to.iter().map(|e| e.email.as_str()).collect();
    assert_eq!(to, vec!["a@test.com", "b@test.com", "c@test.com"]);
    assert_eq!(request.body.subject, "T");
    assert_eq!(request.body.content[0].value, "<p>x</p>");
}

#[test]
fn rejected_issue_says_what_is_missing() {
    let (_, action) = begin_broadcast(issue("", ""));
    match action {
        Some(BroadcastAction::Respond(Err(error))) => {
            assert_eq!(error.message(), "Validation error: title is missing");
            assert!(matches!(error, PublishNewsletterError::ValidationError(_)));
        }
        _ => panic!("a refusal was expected"),
    }
    let (_, action) = begin_broadcast(issue("T", ""));
    match action {
        Some(BroadcastAction::Respond(Err(PublishNewsletterError::ValidationError(m)))) => {
            assert_eq!(m, "content.html is missing")
        }
        _ => panic!("a refusal was expected"),
    }
}

#[test]
fn failed_query_answers_with_500() {
    let (state, _) = begin_broadcast(issue("T", "<p>x</p>"));
    let (state, action) = advance_broadcast(
        state,
        BroadcastEvent::Subscribers(Err("pool timed out".to_string())),
        &client(),
    );
    assert!(matches!(state, BroadcastState::Done));
    match action {
        Some(BroadcastAction::Respond(Err(error))) => {
            assert_eq!(error.status_code(), 500);
            assert_eq!(error.message(), "Failed to get subscribers from the database.");
            match error {
                PublishNewsletterError::GetSubscribersError(cause) => {
                    assert_eq!(cause, "pool timed out")
                }
                _ => panic!("a store error was expected"),
            }
        }
        _ => panic!("a failure was expected"),
    }
}

#[test]
fn failed_delivery_fails_the_whole_broadcast() {
    let (state, _) = begin_broadcast(issue("T", "<p>x</p>"));
    let (state, _) = advance_broadcast(
        state,
        BroadcastEvent::Subscribers(Ok(emails(&["a@test.com", "b@test.com"]))),
        &client(),
    );
    let (state, action) = advance_broadcast(
        state,
        BroadcastEvent::EmailSent(Err(TransportError::Failed("timed out".to_string()))),
        &client(),
    );
    assert!(matches!(state, BroadcastState::Done));
    match action {
        Some(BroadcastAction::Respond(Err(error))) => {
            assert_eq!(error.status_code(), 500);
            assert_eq!(
                error.message(),
                "Failed to send a confirmation email to a new subscriber."
            );
            assert!(matches!(
                error,
                PublishNewsletterError::SendEmailError(TransportError::Failed(_))
            ));
        }
        _ => panic!("a failure was expected"),
    }
}

#[test]
fn broadcast_event_that_answers_nothing_awaited_changes_nothing() {
    let (state, _) = begin_broadcast(issue("T", "<p>x</p>"));
    let (state, action) = advance_broadcast(state, BroadcastEvent::EmailSent(Ok(())), &client());
    assert!(action.is_none());
    match state {
        BroadcastState::AwaitingSubscribers { title, html } => {
            assert_eq!(title, "T");
            assert_eq!(html, "<p>x</p>");
        }
        _ => panic!("the query was expected to be awaited still"),
    }
    let (state, action) =
        advance_broadcast(BroadcastState::Done, BroadcastEvent::EmailSent(Ok(())), &client());
    assert!(action.is_none());
    assert!(matches!(state, BroadcastState::Done));
}

#[test]
fn stored_addresses_are_read_in_order() {
    let parsed =
        parse_confirmed_emails(vec!["a@test.com".to_string(), "b@test.com".to_string()]).unwrap();
    let texts: Vec<&str> = parsed.iter().map(|e| e.as_str()).collect();
    assert_eq!(texts, vec!["a@test.com", "b@test.com"]);
    assert!(parse_confirmed_emails(Vec::new()).unwrap().is_empty());
}

#[test]
fn first_unreadable_address_rejects_the_list() {
    let rejected = parse_confirmed_emails(vec![
        "a@test.com".to_string(),
        "nobody".to_string(),
        "b@test.com".to_string(),
        "@nowhere".to_string(),
    ]);
    assert_eq!(rejected.err().unwrap(), "nobody email is not valid");
}
