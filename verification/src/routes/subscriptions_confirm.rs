//! Confirming: resolve the token to its subscriber and mark the
//! subscriber confirmed.

use crate::domain::subscriber::{
    id_of_text, id_text, parse_subscriber_id, Subscriber, SubscriberView,
};
use crate::domain::subscriber_status::SubscriberStatus;
use crate::routes::subscriptions::{subscription_token_key, token_key};
use vstd::prelude::*;
use vstd::string::*;

verus! {

/// The query of a confirmation link.
#[derive(Debug)]
pub struct Parameters {
    pub token: String,
}

/// Why a confirmation failed.
#[derive(Debug)]
pub enum ConfirmSubscriptionError {
    /// The token store knows no subscriber for the token.
    NotFoundError,
    /// The token store failed; the text is what it reported.
    TokenStoreError(String),
    /// The relational store failed; the text is what it reported.
    PersistenceError(String),
}

/// A failed confirmation as mathematical data.
pub enum ConfirmSubscriptionErrorView {
    NotFoundError,
    TokenStoreError(Seq<char>),
    PersistenceError(Seq<char>),
}

impl View for ConfirmSubscriptionError {
    type V = ConfirmSubscriptionErrorView;

    open spec fn view(&self) -> ConfirmSubscriptionErrorView {
        match self {
            ConfirmSubscriptionError::NotFoundError => ConfirmSubscriptionErrorView::NotFoundError,
            ConfirmSubscriptionError::TokenStoreError(cause) => {
                ConfirmSubscriptionErrorView::TokenStoreError(cause@)
            },
            ConfirmSubscriptionError::PersistenceError(cause) => {
                ConfirmSubscriptionErrorView::PersistenceError(cause@)
            },
        }
    }
}

/// The HTTP status that reports a failed confirmation: 404 for an unknown
/// token, 500 where a store failed.
pub open spec fn confirm_subscription_status(error: ConfirmSubscriptionErrorView) -> u16 {
    match error {
        ConfirmSubscriptionErrorView::NotFoundError => 404,
        _ => 500,
    }
}

impl ConfirmSubscriptionError {
    /// The HTTP status that reports the failure.
    pub fn status_code(&self) -> (status: u16)
        ensures
            status == confirm_subscription_status(self@),
    {
        match self {
            Self::NotFoundError => 404,
            _ => 500,
        }
    }
}

/// The HTTP status that answers a confirmation: 200 where the subscriber
/// was confirmed, else the status of the failure.
pub open spec fn confirmation_response_status(
    answer: Result<SubscriberView, ConfirmSubscriptionErrorView>,
) -> u16 {
    match answer {
        Ok(_) => 200,
        Err(error) => confirm_subscription_status(error),
    }
}

/// The HTTP status that answers a confirmation.
pub fn confirmation_status_code(answer: &Result<Subscriber, ConfirmSubscriptionError>) -> (status:
    u16)
    ensures
        status == confirmation_response_status(
            match answer {
                Ok(subscriber) => Ok(subscriber@),
                Err(error) => Err(error@),
            },
        ),
{
    match answer {
        Ok(_) => 200,
        Err(error) => error.status_code(),
    }
}

/// How far a confirmation has come.
#[derive(Debug, Clone, Copy, PartialEq, Eq, Structural)]
pub enum ConfirmationState {
    /// The subscriber of the token is being looked up.
    AwaitingToken,
    /// The subscriber is being marked.
    AwaitingConfirmation,
    /// The confirmation was answered.
    Done,
}

/// What is to be done next for a confirmation.
pub enum ConfirmationAction {
    /// Get a key of the token store.
    GetToken { key: String },
    /// Set the status of a row of the subscriber table, and return the row.
    UpdateStatus { id: u128, status: SubscriberStatus },
    /// Answer the confirmation.
    Respond(Result<Subscriber, ConfirmSubscriptionError>),
}

/// How an action of a confirmation ended.
pub enum ConfirmationEvent {
    /// The key holds a value or none, or the token store failed.
    TokenLookedUp(Result<Option<String>, String>),
    /// The update returned the stored subscriber, or the store failed.
    StatusUpdated(Result<Subscriber, String>),
}

/// An action of a confirmation as mathematical data.
pub enum ConfirmationActionView {
    GetToken { key: Seq<char> },
    UpdateStatus { id: u128, status: SubscriberStatus },
    Respond(Result<SubscriberView, ConfirmSubscriptionErrorView>),
}

/// An event of a confirmation as mathematical data.
pub enum ConfirmationEventView {
    TokenLookedUp(Result<Option<Seq<char>>, Seq<char>>),
    StatusUpdated(Result<SubscriberView, Seq<char>>),
}

impl View for ConfirmationAction {
    type V = ConfirmationActionView;

    open spec fn view(&self) -> ConfirmationActionView {
        match self {
            ConfirmationAction::GetToken { key } => ConfirmationActionView::GetToken { key: key@ },
            ConfirmationAction::UpdateStatus { id, status } => {
                ConfirmationActionView::UpdateStatus { id: *id, status: *status }
            },
            ConfirmationAction::Respond(Ok(subscriber)) => ConfirmationActionView::Respond(
                Ok(subscriber@),
            ),
            ConfirmationAction::Respond(Err(error)) => ConfirmationActionView::Respond(
                Err(error@),
            ),
        }
    }
}

impl View for ConfirmationEvent {
    type V = ConfirmationEventView;

    open spec fn view(&self) -> ConfirmationEventView {
        match self {
            ConfirmationEvent::TokenLookedUp(Ok(Some(value))) => {
                ConfirmationEventView::TokenLookedUp(Ok(Some(value@)))
            },
            ConfirmationEvent::TokenLookedUp(Ok(None)) => ConfirmationEventView::TokenLookedUp(
                Ok(None),
            ),
            ConfirmationEvent::TokenLookedUp(Err(cause)) => ConfirmationEventView::TokenLookedUp(
                Err(cause@),
            ),
            ConfirmationEvent::StatusUpdated(Ok(subscriber)) => {
                ConfirmationEventView::StatusUpdated(Ok(subscriber@))
            },
            ConfirmationEvent::StatusUpdated(Err(cause)) => ConfirmationEventView::StatusUpdated(
                Err(cause@),
            ),
        }
    }
}

/// The view of what a step hands back: the next state and, if there is
/// something to do, the action.
pub open spec fn confirmation_turn(turn: (ConfirmationState, Option<ConfirmationAction>)) -> (
    ConfirmationState,
    Option<ConfirmationActionView>,
) {
    (
        turn.0,
        match turn.1 {
            Some(action) => Some(action@),
            None => None,
        },
    )
}

/// How a confirmation begins: by looking up the token's key.
pub open spec fn confirmation_start(token: Seq<char>) -> (
    ConfirmationState,
    Option<ConfirmationActionView>,
) {
    (
        ConfirmationState::AwaitingToken,
        Some(ConfirmationActionView::GetToken { key: token_key(token) }),
    )
}

/// How a confirmation goes on when an action has ended, for the id that
/// the value held by the token's key reads as. A key without a value, or
/// with one that reads as no id, answers with `NotFoundError`; a failure
/// of a store answers with that store's error. An event that does not
/// answer the action awaited changes nothing.
pub open spec fn confirmation_step_with(
    state: ConfirmationState,
    event: ConfirmationEventView,
    id: Option<u128>,
) -> (ConfirmationState, Option<ConfirmationActionView>) {
    match (state, event) {
        (ConfirmationState::AwaitingToken, ConfirmationEventView::TokenLookedUp(Ok(Some(_)))) => {
            match id {
                Some(id) => (
                    ConfirmationState::AwaitingConfirmation,
                    Some(
                        ConfirmationActionView::UpdateStatus {
                            id,
                            status: SubscriberStatus::Confirmed,
                        },
                    ),
                ),
                None => (
                    ConfirmationState::Done,
                    Some(
                        ConfirmationActionView::Respond(
                            Err(ConfirmSubscriptionErrorView::NotFoundError),
                        ),
                    ),
                ),
            }
        },
        (ConfirmationState::AwaitingToken, ConfirmationEventView::TokenLookedUp(Ok(None))) => (
            ConfirmationState::Done,
            Some(ConfirmationActionView::Respond(Err(ConfirmSubscriptionErrorView::NotFoundError))),
        ),
        (ConfirmationState::AwaitingToken, ConfirmationEventView::TokenLookedUp(Err(cause))) => (
            ConfirmationState::Done,
            Some(
                ConfirmationActionView::Respond(
                    Err(ConfirmSubscriptionErrorView::TokenStoreError(cause)),
                ),
            ),
        ),
        (
            ConfirmationState::AwaitingConfirmation,
            ConfirmationEventView::StatusUpdated(Ok(subscriber)),
        ) => (ConfirmationState::Done, Some(ConfirmationActionView::Respond(Ok(subscriber)))),
        (
            ConfirmationState::AwaitingConfirmation,
            ConfirmationEventView::StatusUpdated(Err(cause)),
        ) => (
            ConfirmationState::Done,
            Some(
                ConfirmationActionView::Respond(
                    Err(ConfirmSubscriptionErrorView::PersistenceError(cause)),
                ),
            ),
        ),
        _ => (state, None),
    }
}

/// The id that the value of a lookup reads as, if the lookup found one.
pub open spec fn looked_up_id(event: ConfirmationEventView) -> Option<u128> {
    match event {
        ConfirmationEventView::TokenLookedUp(Ok(Some(value))) => id_of_text(value),
        _ => None,
    }
}

/// How a confirmation goes on when an action has ended.
pub open spec fn confirmation_step(state: ConfirmationState, event: ConfirmationEventView) -> (
    ConfirmationState,
    Option<ConfirmationActionView>,
) {
    confirmation_step_with(state, event, looked_up_id(event))
}

/// Begins a confirmation.
pub fn begin_confirmation(parameters: &Parameters) -> (turn: (
    ConfirmationState,
    Option<ConfirmationAction>,
))
    ensures
        confirmation_turn(turn) == confirmation_start(parameters.token@),
{
    let key = subscription_token_key(parameters.token.as_str());
    (ConfirmationState::AwaitingToken, Some(ConfirmationAction::GetToken { key }))
}

/// Goes on with a confirmation for a given reading of the looked-up value.
pub fn advance_confirmation_with(
    state: ConfirmationState,
    event: ConfirmationEvent,
    id: Option<u128>,
) -> (turn: (ConfirmationState, Option<ConfirmationAction>))
    ensures
        confirmation_turn(turn) == confirmation_step_with(state, event@, id),
{
    match (state, event) {
        (ConfirmationState::AwaitingToken, ConfirmationEvent::TokenLookedUp(Ok(Some(_)))) => {
            match id {
                Some(id) => (
                    ConfirmationState::AwaitingConfirmation,
                    Some(
                        ConfirmationAction::UpdateStatus { id, status: SubscriberStatus::Confirmed },
                    ),
                ),
                None => (
                    ConfirmationState::Done,
                    Some(ConfirmationAction::Respond(Err(ConfirmSubscriptionError::NotFoundError))),
                ),
            }
        },
        (ConfirmationState::AwaitingToken, ConfirmationEvent::TokenLookedUp(Ok(None))) => (
            ConfirmationState::Done,
            Some(ConfirmationAction::Respond(Err(ConfirmSubscriptionError::NotFoundError))),
        ),
        (ConfirmationState::AwaitingToken, ConfirmationEvent::TokenLookedUp(Err(cause))) => (
            ConfirmationState::Done,
            Some(ConfirmationAction::Respond(Err(ConfirmSubscriptionError::TokenStoreError(cause)))),
        ),
        (
            ConfirmationState::AwaitingConfirmation,
            ConfirmationEvent::StatusUpdated(Ok(subscriber)),
        ) => (ConfirmationState::Done, Some(ConfirmationAction::Respond(Ok(subscriber)))),
        (ConfirmationState::AwaitingConfirmation, ConfirmationEvent::StatusUpdated(Err(cause))) => (
            ConfirmationState::Done,
            Some(
                ConfirmationAction::Respond(Err(ConfirmSubscriptionError::PersistenceError(cause))),
            ),
        ),
        (state, _) => (state, None),
    }
}

/// Goes on with a confirmation: a looked-up value is read as an id, and
/// the text of an id as that id.
pub fn advance_confirmation(state: ConfirmationState, event: ConfirmationEvent) -> (turn: (
    ConfirmationState,
    Option<ConfirmationAction>,
))
    ensures
        confirmation_turn(turn) == confirmation_step(state, event@),
        forall|id: u128|
            event@ == ConfirmationEventView::TokenLookedUp(Ok(Some(#[trigger] id_text(id))))
                ==> confirmation_turn(turn) == confirmation_step_with(state, event@, Some(id)),
{
    let id = match &event {
        ConfirmationEvent::TokenLookedUp(Ok(Some(value))) => parse_subscriber_id(value.as_str()),
        _ => None,
    };
    advance_confirmation_with(state, event, id)
}

} // verus!
