//! Broadcasting: send one issue of the newsletter to every confirmed
//! subscriber.

use crate::domain::subscriber_email::{email_syntax_ok, invalid_email_message, SubscriberEmail};
use crate::domain::subscriber_status::SubscriberStatus;
use crate::email_client::{
    addresses, email_request, EmailClient, EmailClientView, EmailRequest, EmailRequestView,
    TransportError, TransportErrorView,
};
use vstd::prelude::*;
use vstd::string::*;

verus! {

/// An issue of the newsletter.
#[derive(Debug)]
pub struct NewNewsletter {
    pub title: String,
    pub content: NewsletterContent,
}

/// The renderings of an issue.
#[derive(Debug)]
pub struct NewsletterContent {
    pub html: String,
}

/// Why a broadcast failed.
#[derive(Debug)]
pub enum PublishNewsletterError {
    /// The issue lacks a title or a body; the text says which.
    ValidationError(String),
    /// The issue was not delivered.
    SendEmailError(TransportError),
    /// The relational store failed; the text is what it reported.
    GetSubscribersError(String),
}

/// A failed broadcast as mathematical data.
pub enum PublishNewsletterErrorView {
    ValidationError(Seq<char>),
    SendEmailError(TransportErrorView),
    GetSubscribersError(Seq<char>),
}

impl View for PublishNewsletterError {
    type V = PublishNewsletterErrorView;

    open spec fn view(&self) -> PublishNewsletterErrorView {
        match self {
            PublishNewsletterError::ValidationError(message) => {
                PublishNewsletterErrorView::ValidationError(message@)
            },
            PublishNewsletterError::SendEmailError(cause) => {
                PublishNewsletterErrorView::SendEmailError(cause@)
            },
            PublishNewsletterError::GetSubscribersError(cause) => {
                PublishNewsletterErrorView::GetSubscribersError(cause@)
            },
        }
    }
}

/// The HTTP status that reports a failed broadcast: 400 where the issue
/// was refused, 500 where the store or the provider failed.
pub open spec fn publish_newsletter_status(error: PublishNewsletterErrorView) -> u16 {
    match error {
        PublishNewsletterErrorView::ValidationError(_) => 400,
        _ => 500,
    }
}

/// What a failed broadcast is, in words.
pub open spec fn publish_newsletter_message(error: PublishNewsletterErrorView) -> Seq<char> {
    match error {
        PublishNewsletterErrorView::ValidationError(message) => "Validation error: "@ + message,
        PublishNewsletterErrorView::SendEmailError(_) => {
            "Failed to send a confirmation email to a new subscriber."@
        },
        PublishNewsletterErrorView::GetSubscribersError(_) => {
            "Failed to get subscribers from the database."@
        },
    }
}

impl PublishNewsletterError {
    /// The HTTP status that reports the failure.
    pub fn status_code(&self) -> (status: u16)
        ensures
            status == publish_newsletter_status(self@),
    {
        match self {
            PublishNewsletterError::ValidationError(_) => 400,
            PublishNewsletterError::SendEmailError(_) => 500,
            PublishNewsletterError::GetSubscribersError(_) => 500,
        }
    }

    /// What the failure is, in words.
    pub fn message(&self) -> (text: String)
        ensures
            text@ == publish_newsletter_message(self@),
    {
        match self {
            Self::ValidationError(message) => String::from_str("Validation error: ").concat(
                message.as_str(),
            ),
            Self::SendEmailError(_) => String::from_str(
                "Failed to send a confirmation email to a new subscriber.",
            ),
            Self::GetSubscribersError(_) => String::from_str(
                "Failed to get subscribers from the database.",
            ),
        }
    }
}

/// The HTTP status that answers a broadcast: 200 where it succeeded, else
/// the status of the failure.
pub open spec fn broadcast_response_status(answer: Result<(), PublishNewsletterErrorView>) -> u16 {
    match answer {
        Ok(_) => 200,
        Err(error) => publish_newsletter_status(error),
    }
}

/// The HTTP status that answers a broadcast.
pub fn broadcast_status_code(answer: &Result<(), PublishNewsletterError>) -> (status: u16)
    ensures
        status == broadcast_response_status(
            match answer {
                Ok(_) => Ok(()),
                Err(error) => Err(error@),
            },
        ),
{
    match answer {
        Ok(_) => 200,
        Err(error) => error.status_code(),
    }
}

/// Whether an issue can be sent: it has a title and a body.
pub open spec fn is_valid_issue(title: Seq<char>, html: Seq<char>) -> bool {
    title.len() > 0 && html.len() > 0
}

/// The message that rejects an issue: that of the title if the title is
/// missing, else that of the body.
pub open spec fn invalid_issue_message(title: Seq<char>, html: Seq<char>) -> Seq<char> {
    if title.len() == 0 {
        "title is missing"@
    } else {
        "content.html is missing"@
    }
}

/// Whether every text of a list passes the syntax check of an address.
pub open spec fn all_addresses_ok(rows: Seq<String>) -> bool {
    forall|i: int| 0 <= i < rows.len() ==> email_syntax_ok(#[trigger] rows[i]@)
}

/// The message that rejects a list of texts as addresses: that of the
/// first text that fails the syntax check.
pub open spec fn first_invalid_address_message(rows: Seq<String>) -> Seq<char>
    decreases rows.len(),
{
    if rows.len() == 0 {
        Seq::empty()
    } else if !email_syntax_ok(rows[0]@) {
        invalid_email_message(rows[0]@)
    } else {
        first_invalid_address_message(rows.drop_first())
    }
}

/// The first failing text decides the message, however many texts pass
/// before it.
proof fn lemma_first_invalid_after_valid(rows: Seq<String>, k: int)
    requires
        0 <= k < rows.len(),
        !email_syntax_ok(rows[k]@),
        forall|i: int| 0 <= i < k ==> email_syntax_ok(#[trigger] rows[i]@),
    ensures
        first_invalid_address_message(rows) == invalid_email_message(rows[k]@),
    decreases k,
{
    if k > 0 {
        let rest = rows.drop_first();
        assert forall|i: int| 0 <= i < k - 1 implies email_syntax_ok(#[trigger] rest[i]@) by {
            assert(rest[i] == rows[i + 1]);
        }
        assert(rest[k - 1] == rows[k]);
        lemma_first_invalid_after_valid(rest, k - 1);
    }
}

/// Reads the addresses that the store returned. If one of them fails the
/// syntax check, the list is rejected with the message of the first that
/// does.
pub fn parse_confirmed_emails(rows: Vec<String>) -> (parsed: Result<Vec<SubscriberEmail>, String>)
    ensures
        match parsed {
            Ok(emails) => all_addresses_ok(rows@) && addresses(emails@) == Seq::new(
                rows@.len(),
                |i: int| rows@[i]@,
            ),
            Err(message) => !all_addresses_ok(rows@) && message@ == first_invalid_address_message(
                rows@,
            ),
        },
{
    let mut emails: Vec<SubscriberEmail> = Vec::new();
    let mut i: usize = 0;
    while i < rows.len()
        invariant
            i <= rows.len(),
            emails@.len() == i,
            forall|j: int| 0 <= j < i ==> email_syntax_ok(#[trigger] rows@[j]@),
            forall|j: int| 0 <= j < i ==> (#[trigger] emails@[j])@ == rows@[j]@,
        decreases rows.len() - i,
    {
        match SubscriberEmail::parse(rows[i].clone()) {
            Ok(email) => {
                emails.push(email);
            },
            Err(message) => {
                proof {
                    lemma_first_invalid_after_valid(rows@, i as int);
                }
                return Err(message);
            },
        }
        i = i + 1;
    }
    assert(addresses(emails@) =~= Seq::new(rows@.len(), |i: int| rows@[i]@));
    Ok(emails)
}

/// How far a broadcast has come.
pub enum BroadcastState {
    /// The confirmed subscribers are being queried.
    AwaitingSubscribers { title: String, html: String },
    /// The issue is being sent.
    AwaitingEmail,
    /// The broadcast was answered.
    Done,
}

/// What is to be done next for a broadcast.
pub enum BroadcastAction {
    /// Select the addresses of the subscribers with a status.
    GetSubscribers { status: SubscriberStatus },
    /// Send a message through the email provider.
    SendEmail(EmailRequest),
    /// Answer the broadcast.
    Respond(Result<(), PublishNewsletterError>),
}

/// How an action of a broadcast ended.
pub enum BroadcastEvent {
    /// The query returned the addresses, or the store failed.
    Subscribers(Result<Vec<SubscriberEmail>, String>),
    /// The message was delivered, or it was not.
    EmailSent(Result<(), TransportError>),
}

/// A state of a broadcast as mathematical data.
pub enum BroadcastStateView {
    AwaitingSubscribers { title: Seq<char>, html: Seq<char> },
    AwaitingEmail,
    Done,
}

/// An action of a broadcast as mathematical data.
pub enum BroadcastActionView {
    GetSubscribers { status: SubscriberStatus },
    SendEmail(EmailRequestView),
    Respond(Result<(), PublishNewsletterErrorView>),
}

/// An event of a broadcast as mathematical data.
pub enum BroadcastEventView {
    Subscribers(Result<Seq<Seq<char>>, Seq<char>>),
    EmailSent(Result<(), TransportErrorView>),
}

impl View for BroadcastState {
    type V = BroadcastStateView;

    open spec fn view(&self) -> BroadcastStateView {
        match self {
            BroadcastState::AwaitingSubscribers { title, html } => {
                BroadcastStateView::AwaitingSubscribers { title: title@, html: html@ }
            },
            BroadcastState::AwaitingEmail => BroadcastStateView::AwaitingEmail,
            BroadcastState::Done => BroadcastStateView::Done,
        }
    }
}

impl View for BroadcastAction {
    type V = BroadcastActionView;

    open spec fn view(&self) -> BroadcastActionView {
        match self {
            BroadcastAction::GetSubscribers { status } => BroadcastActionView::GetSubscribers {
                status: *status,
            },
            BroadcastAction::SendEmail(request) => BroadcastActionView::SendEmail(request@),
            BroadcastAction::Respond(Ok(_)) => BroadcastActionView::Respond(Ok(())),
            BroadcastAction::Respond(Err(error)) => BroadcastActionView::Respond(Err(error@)),
        }
    }
}

impl View for BroadcastEvent {
    type V = BroadcastEventView;

    open spec fn view(&self) -> BroadcastEventView {
        match self {
            BroadcastEvent::Subscribers(Ok(emails)) => BroadcastEventView::Subscribers(
                Ok(addresses(emails@)),
            ),
            BroadcastEvent::Subscribers(Err(cause)) => BroadcastEventView::Subscribers(
                Err(cause@),
            ),
            BroadcastEvent::EmailSent(Ok(_)) => BroadcastEventView::EmailSent(Ok(())),
            BroadcastEvent::EmailSent(Err(cause)) => BroadcastEventView::EmailSent(Err(cause@)),
        }
    }
}

/// The view of what a step hands back: the next state and, if there is
/// something to do, the action.
pub open spec fn broadcast_turn(turn: (BroadcastState, Option<BroadcastAction>)) -> (
    BroadcastStateView,
    Option<BroadcastActionView>,
) {
    (
        turn.0@,
        match turn.1 {
            Some(action) => Some(action@),
            None => None,
        },
    )
}

/// How a broadcast begins. An issue without a title or without a body is
/// refused at once; for any other the confirmed subscribers are queried.
pub open spec fn broadcast_start(title: Seq<char>, html: Seq<char>) -> (
    BroadcastStateView,
    Option<BroadcastActionView>,
) {
    if is_valid_issue(title, html) {
        (
            BroadcastStateView::AwaitingSubscribers { title, html },
            Some(BroadcastActionView::GetSubscribers { status: SubscriberStatus::Confirmed }),
        )
    } else {
        (
            BroadcastStateView::Done,
            Some(
                BroadcastActionView::Respond(
                    Err(
                        PublishNewsletterErrorView::ValidationError(
                            invalid_issue_message(title, html),
                        ),
                    ),
                ),
            ),
        )
    }
}

/// How a broadcast goes on when an action has ended. Without a confirmed
/// subscriber it succeeds and nothing is sent; otherwise one message goes
/// to all of them, with the title as its subject and the body unchanged.
/// A failure answers with the error of the step that failed. An event
/// that does not answer the action awaited changes nothing.
pub open spec fn broadcast_step(
    state: BroadcastStateView,
    event: BroadcastEventView,
    client: EmailClientView,
) -> (BroadcastStateView, Option<BroadcastActionView>) {
    match (state, event) {
        (
            BroadcastStateView::AwaitingSubscribers { title, html },
            BroadcastEventView::Subscribers(Ok(recipients)),
        ) => {
            if recipients.len() == 0 {
                (BroadcastStateView::Done, Some(BroadcastActionView::Respond(Ok(()))))
            } else {
                (
                    BroadcastStateView::AwaitingEmail,
                    Some(
                        BroadcastActionView::SendEmail(
                            email_request(client, recipients, title, html),
                        ),
                    ),
                )
            }
        },
        (
            BroadcastStateView::AwaitingSubscribers { .. },
            BroadcastEventView::Subscribers(Err(cause)),
        ) => (
            BroadcastStateView::Done,
            Some(
                BroadcastActionView::Respond(
                    Err(PublishNewsletterErrorView::GetSubscribersError(cause)),
                ),
            ),
        ),
        (BroadcastStateView::AwaitingEmail, BroadcastEventView::EmailSent(Ok(_))) => (
            BroadcastStateView::Done,
            Some(BroadcastActionView::Respond(Ok(()))),
        ),
        (BroadcastStateView::AwaitingEmail, BroadcastEventView::EmailSent(Err(cause))) => (
            BroadcastStateView::Done,
            Some(
                BroadcastActionView::Respond(Err(PublishNewsletterErrorView::SendEmailError(cause))),
            ),
        ),
        _ => (state, None),
    }
}

/// Begins a broadcast.
pub fn begin_broadcast(issue: NewNewsletter) -> (turn: (BroadcastState, Option<BroadcastAction>))
    ensures
        broadcast_turn(turn) == broadcast_start(issue.title@, issue.content.html@),
{
    let NewNewsletter { title, content } = issue;
    let NewsletterContent { html } = content;
    if title.as_str().is_empty() {
        (
            BroadcastState::Done,
            Some(
                BroadcastAction::Respond(
                    Err(
                        PublishNewsletterError::ValidationError(
                            String::from_str("title is missing"),
                        ),
                    ),
                ),
            ),
        )
    } else if html.as_str().is_empty() {
        (
            BroadcastState::Done,
            Some(
                BroadcastAction::Respond(
                    Err(
                        PublishNewsletterError::ValidationError(
                            String::from_str("content.html is missing"),
                        ),
                    ),
                ),
            ),
        )
    } else {
        (
            BroadcastState::AwaitingSubscribers { title, html },
            Some(BroadcastAction::GetSubscribers { status: SubscriberStatus::Confirmed }),
        )
    }
}

/// Goes on with a broadcast.
pub fn advance_broadcast(state: BroadcastState, event: BroadcastEvent, email_client: &EmailClient) -> (turn:
    (BroadcastState, Option<BroadcastAction>))
    ensures
        broadcast_turn(turn) == broadcast_step(state@, event@, email_client@),
{
    match (state, event) {
        (
            BroadcastState::AwaitingSubscribers { title, html },
            BroadcastEvent::Subscribers(Ok(subscriber_emails)),
        ) => {
            if subscriber_emails.len() == 0 {
                (BroadcastState::Done, Some(BroadcastAction::Respond(Ok(()))))
            } else {
                let request = email_client.broadcast_email_request(
                    &subscriber_emails,
                    title.as_str(),
                    html.as_str(),
                );
                (BroadcastState::AwaitingEmail, Some(BroadcastAction::SendEmail(request)))
            }
        },
        (BroadcastState::AwaitingSubscribers { .. }, BroadcastEvent::Subscribers(Err(cause))) => (
            BroadcastState::Done,
            Some(BroadcastAction::Respond(Err(PublishNewsletterError::GetSubscribersError(cause)))),
        ),
        (BroadcastState::AwaitingEmail, BroadcastEvent::EmailSent(Ok(_))) => (
            BroadcastState::Done,
            Some(BroadcastAction::Respond(Ok(()))),
        ),
        (BroadcastState::AwaitingEmail, BroadcastEvent::EmailSent(Err(cause))) => (
            BroadcastState::Done,
            Some(BroadcastAction::Respond(Err(PublishNewsletterError::SendEmailError(cause)))),
        ),
        (state, _) => (state, None),
    }
}

} // verus!
