//! The workflows run against stores that do as they are told: what the
//! stores hold afterwards and what the caller is answered. The laws of
//! the subscriber lifecycle are stated and proved here.

use crate::domain::new_subscriber::{invalid_request_message, is_valid_request};
use crate::domain::subscriber::{id_of_text, id_text, SubscriberView, Timestamp};
use crate::domain::subscriber_status::SubscriberStatus;
use crate::email_client::{email_request, EmailClientView, EmailRequestView};
use crate::routes::newsletters::{
    broadcast_start, broadcast_step, invalid_issue_message, is_valid_issue, BroadcastActionView,
    BroadcastEventView, BroadcastStateView, PublishNewsletterErrorView,
};
use crate::routes::subscriptions::{
    subscription_start, subscription_step, token_key, CreateSubscriptionErrorView,
    SubscriptionActionView, SubscriptionEventView, SubscriptionStateView,
};
use crate::routes::subscriptions_confirm::{
    confirmation_start, confirmation_step, ConfirmSubscriptionErrorView, ConfirmationActionView,
    ConfirmationEventView, ConfirmationState,
};
use vstd::prelude::*;

verus! {

/// What the two stores hold: the subscriber table by id, and the keys of
/// the token store with their values.
pub struct Stores {
    pub subscribers: Map<u128, SubscriberView>,
    pub tokens: Map<Seq<char>, Seq<char>>,
}

/// What the stores report when a row is inserted under an id that is taken.
pub open spec fn duplicate_id_cause() -> Seq<char> {
    "duplicate key value violates unique constraint"@
}

/// What the stores report when no row has the id of an update.
pub open spec fn row_not_found_cause() -> Seq<char> {
    "no rows returned by a query that expected to return at least one row"@
}

/// A subscriber with another status.
pub open spec fn with_status(subscriber: SubscriberView, status: SubscriberStatus) -> SubscriberView {
    SubscriberView {
        id: subscriber.id,
        email: subscriber.email,
        name: subscriber.name,
        status,
        subscribed_at: subscriber.subscribed_at,
    }
}

/// How the stores and the provider carry out an action of a request to
/// subscribe: what the stores hold afterwards, and the event that answers
/// the action. An insert adds the row unless its id is taken, a key takes
/// its value, and a message is delivered.
pub open spec fn carry_out_subscription(stores: Stores, action: SubscriptionActionView) -> (
    Stores,
    SubscriptionEventView,
) {
    match action {
        SubscriptionActionView::InsertSubscriber { id, email, name, subscribed_at, status } => {
            if stores.subscribers.contains_key(id) {
                (stores, SubscriptionEventView::Inserted(Err(duplicate_id_cause())))
            } else {
                let row = SubscriberView { id, email, name, status, subscribed_at };
                (
                    Stores { subscribers: stores.subscribers.insert(id, row), tokens: stores.tokens },
                    SubscriptionEventView::Inserted(Ok(row)),
                )
            }
        },
        SubscriptionActionView::StoreToken { key, value } => (
            Stores { subscribers: stores.subscribers, tokens: stores.tokens.insert(key, value) },
            SubscriptionEventView::TokenStored(Ok(())),
        ),
        _ => (stores, SubscriptionEventView::EmailSent(Ok(()))),
    }
}

/// Runs a request to subscribe from a turn on, for at most `steps` actions.
pub open spec fn run_subscription(
    stores: Stores,
    turn: (SubscriptionStateView, Option<SubscriptionActionView>),
    token: Seq<char>,
    client: EmailClientView,
    base_url: Seq<char>,
    steps: nat,
) -> (Stores, Option<Result<SubscriberView, CreateSubscriptionErrorView>>)
    decreases steps,
{
    match turn.1 {
        Some(SubscriptionActionView::Respond(answer)) => (stores, Some(answer)),
        Some(action) => {
            if steps == 0 {
                (stores, None)
            } else {
                let (after, event) = carry_out_subscription(stores, action);
                run_subscription(
                    after,
                    subscription_step(turn.0, event, token, client, base_url),
                    token,
                    client,
                    base_url,
                    (steps - 1) as nat,
                )
            }
        },
        None => (stores, None),
    }
}

/// A request to subscribe, run to its answer: what the stores hold
/// afterwards and what the caller is answered, for the id, the moment and
/// the token that the request draws.
pub open spec fn subscribe(
    stores: Stores,
    name: Seq<char>,
    email: Seq<char>,
    id: u128,
    now: Timestamp,
    token: Seq<char>,
    client: EmailClientView,
    base_url: Seq<char>,
) -> (Stores, Option<Result<SubscriberView, CreateSubscriptionErrorView>>) {
    run_subscription(stores, subscription_start(name, email, id, now), token, client, base_url, 3)
}

/// How the stores carry out an action of a confirmation: a lookup
/// returns what the key holds, and an update sets the status of the row
/// with the id and returns the row, or fails where there is none.
pub open spec fn carry_out_confirmation(stores: Stores, action: ConfirmationActionView) -> (
    Stores,
    ConfirmationEventView,
) {
    match action {
        ConfirmationActionView::UpdateStatus { id, status } => {
            if stores.subscribers.contains_key(id) {
                let row = with_status(stores.subscribers[id], status);
                (
                    Stores { subscribers: stores.subscribers.insert(id, row), tokens: stores.tokens },
                    ConfirmationEventView::StatusUpdated(Ok(row)),
                )
            } else {
                (stores, ConfirmationEventView::StatusUpdated(Err(row_not_found_cause())))
            }
        },
        ConfirmationActionView::GetToken { key } => (
            stores,
            ConfirmationEventView::TokenLookedUp(
                Ok(
                    if stores.tokens.contains_key(key) {
                        Some(stores.tokens[key])
                    } else {
                        None
                    },
                ),
            ),
        ),
        _ => (stores, ConfirmationEventView::TokenLookedUp(Ok(None))),
    }
}

/// Runs a confirmation from a turn on, for at most `steps` actions.
pub open spec fn run_confirmation(
    stores: Stores,
    turn: (ConfirmationState, Option<ConfirmationActionView>),
    steps: nat,
) -> (Stores, Option<Result<SubscriberView, ConfirmSubscriptionErrorView>>)
    decreases steps,
{
    match turn.1 {
        Some(ConfirmationActionView::Respond(answer)) => (stores, Some(answer)),
        Some(action) => {
            if steps == 0 {
                (stores, None)
            } else {
                let (after, event) = carry_out_confirmation(stores, action);
                run_confirmation(after, confirmation_step(turn.0, event), (steps - 1) as nat)
            }
        },
        None => (stores, None),
    }
}

/// A confirmation, run to its answer: what the stores hold afterwards and
/// what the caller is answered.
pub open spec fn confirm(stores: Stores, token: Seq<char>) -> (
    Stores,
    Option<Result<SubscriberView, ConfirmSubscriptionErrorView>>,
) {
    run_confirmation(stores, confirmation_start(token), 2)
}

/// Whether a token is valid in the stores: its key holds the text of the
/// id of a subscriber in the table.
pub open spec fn is_valid_token(stores: Stores, token: Seq<char>) -> bool {
    &&& stores.tokens.contains_key(token_key(token))
    &&& id_of_text(stores.tokens[token_key(token)]) matches Some(id)
        && stores.subscribers.contains_key(id)
}

/// The subscriber that a valid token stands for.
pub open spec fn subscriber_of_token(stores: Stores, token: Seq<char>) -> u128 {
    id_of_text(stores.tokens[token_key(token)]).unwrap()
}

/// A request that is not accepted is answered with a validation error,
/// and the stores hold what they held.
pub proof fn lemma_rejected_request_touches_no_store(
    stores: Stores,
    name: Seq<char>,
    email: Seq<char>,
    id: u128,
    now: Timestamp,
    token: Seq<char>,
    client: EmailClientView,
    base_url: Seq<char>,
)
    requires
        !is_valid_request(name, email),
    ensures
        subscribe(stores, name, email, id, now, token, client, base_url) == (
            stores,
            Some(
                Err::<SubscriberView, CreateSubscriptionErrorView>(
                    CreateSubscriptionErrorView::ValidationError(
                        invalid_request_message(name, email),
                    ),
                ),
            ),
        ),
{
    reveal_with_fuel(run_subscription, 4);
}

/// An accepted request with a fresh id leaves one more subscriber in the
/// table, pending, and the token's key holding the text of its id; the
/// caller is answered with that subscriber.
pub proof fn lemma_accepted_request_is_pending(
    stores: Stores,
    name: Seq<char>,
    email: Seq<char>,
    id: u128,
    now: Timestamp,
    token: Seq<char>,
    client: EmailClientView,
    base_url: Seq<char>,
)
    requires
        is_valid_request(name, email),
        !stores.subscribers.contains_key(id),
    ensures
        ({
            let row = SubscriberView {
                id,
                email,
                name,
                status: SubscriberStatus::Pending,
                subscribed_at: now,
            };
            subscribe(stores, name, email, id, now, token, client, base_url) == (
                Stores {
                    subscribers: stores.subscribers.insert(id, row),
                    tokens: stores.tokens.insert(token_key(token), id_text(id)),
                },
                Some(Ok::<SubscriberView, CreateSubscriptionErrorView>(row)),
            )
        }),
{
    reveal_with_fuel(run_subscription, 4);
}

/// A token whose key holds nothing is answered with `NotFoundError`, and
/// the stores hold what they held.
pub proof fn lemma_unknown_token_is_not_found(stores: Stores, token: Seq<char>)
    requires
        !stores.tokens.contains_key(token_key(token)),
    ensures
        confirm(stores, token) == (
            stores,
            Some(
                Err::<SubscriberView, ConfirmSubscriptionErrorView>(
                    ConfirmSubscriptionErrorView::NotFoundError,
                ),
            ),
        ),
{
    reveal_with_fuel(run_confirmation, 3);
}

/// Confirming with a valid token answers with the token's subscriber,
/// confirmed, and leaves that subscriber confirmed in the table.
pub proof fn lemma_valid_token_confirms(stores: Stores, token: Seq<char>)
    requires
        is_valid_token(stores, token),
    ensures
        ({
            let id = subscriber_of_token(stores, token);
            let row = with_status(stores.subscribers[id], SubscriberStatus::Confirmed);
            confirm(stores, token) == (
                Stores { subscribers: stores.subscribers.insert(id, row), tokens: stores.tokens },
                Some(Ok::<SubscriberView, ConfirmSubscriptionErrorView>(row)),
            )
        }),
{
    reveal_with_fuel(run_confirmation, 3);
}

/// Confirming twice with a valid token succeeds both times: the second
/// confirmation gives the answer of the first, the subscriber confirmed,
/// and changes nothing in the stores.
pub proof fn lemma_confirm_is_idempotent(stores: Stores, token: Seq<char>)
    requires
        is_valid_token(stores, token),
    ensures
        ({
            let first = confirm(stores, token);
            let second = confirm(first.0, token);
            &&& first.1 matches Some(Ok(subscriber)) && subscriber.status
                == SubscriberStatus::Confirmed
            &&& second.1 == first.1
            &&& second.0 == first.0
            &&& first.0.subscribers[subscriber_of_token(stores, token)].status
                == SubscriberStatus::Confirmed
        }),
{
    lemma_valid_token_confirms(stores, token);
    let first = confirm(stores, token);
    let id = subscriber_of_token(stores, token);
    assert(is_valid_token(first.0, token));
    lemma_valid_token_confirms(first.0, token);
    let row = with_status(stores.subscribers[id], SubscriberStatus::Confirmed);
    assert(with_status(first.0.subscribers[id], SubscriberStatus::Confirmed) == row);
    assert(first.0.subscribers.insert(id, row) =~= first.0.subscribers);
}

/// A confirmation changes nothing in the stores but the status of at most
/// one subscriber, and that status it sets to confirmed: no subscriber is
/// added or removed, none goes back to pending or becomes unsubscribed,
/// and the token store holds what it held.
pub proof fn lemma_confirmation_only_confirms(stores: Stores, token: Seq<char>)
    ensures
        ({
            let after = confirm(stores, token).0;
            &&& after.tokens == stores.tokens
            &&& after.subscribers.dom() == stores.subscribers.dom()
            &&& forall|id: u128| #[trigger]
                stores.subscribers.contains_key(id) ==> after.subscribers[id]
                    == stores.subscribers[id] || after.subscribers[id] == with_status(
                    stores.subscribers[id],
                    SubscriberStatus::Confirmed,
                )
        }),
{
    reveal_with_fuel(run_confirmation, 3);
    let after = confirm(stores, token).0;
    assert(after.subscribers.dom() =~= stores.subscribers.dom());
}

/// A request to subscribe changes no subscriber that the table held, and
/// a subscriber that it adds is pending.
pub proof fn lemma_subscription_adds_pending_only(
    stores: Stores,
    name: Seq<char>,
    email: Seq<char>,
    id: u128,
    now: Timestamp,
    token: Seq<char>,
    client: EmailClientView,
    base_url: Seq<char>,
)
    ensures
        ({
            let after = subscribe(stores, name, email, id, now, token, client, base_url).0;
            &&& forall|other: u128| #[trigger]
                stores.subscribers.contains_key(other) ==> after.subscribers.contains_key(other)
                    && after.subscribers[other] == stores.subscribers[other]
            &&& forall|other: u128| #[trigger]
                after.subscribers.contains_key(other) && !stores.subscribers.contains_key(other)
                    ==> after.subscribers[other].status == SubscriberStatus::Pending
        }),
{
    reveal_with_fuel(run_subscription, 4);
}

/// Where the text of an id reads back as that id, the token of an
/// accepted request is valid afterwards, and confirming with it answers
/// with the new subscriber, confirmed.
pub proof fn lemma_confirm_after_subscribe(
    stores: Stores,
    name: Seq<char>,
    email: Seq<char>,
    id: u128,
    now: Timestamp,
    token: Seq<char>,
    client: EmailClientView,
    base_url: Seq<char>,
)
    requires
        is_valid_request(name, email),
        !stores.subscribers.contains_key(id),
        id_of_text(id_text(id)) == Some(id),
    ensures
        ({
            let subscribed = subscribe(stores, name, email, id, now, token, client, base_url).0;
            &&& is_valid_token(subscribed, token)
            &&& confirm(subscribed, token).1 == Some(
                Ok::<SubscriberView, ConfirmSubscriptionErrorView>(
                    SubscriberView {
                        id,
                        email,
                        name,
                        status: SubscriberStatus::Confirmed,
                        subscribed_at: now,
                    },
                ),
            )
        }),
{
    lemma_accepted_request_is_pending(stores, name, email, id, now, token, client, base_url);
    let subscribed = subscribe(stores, name, email, id, now, token, client, base_url).0;
    assert(subscribed.tokens[token_key(token)] == id_text(id));
    assert(is_valid_token(subscribed, token));
    lemma_valid_token_confirms(subscribed, token);
}

/// Whether a list of ids names the subscribers of the table that have a
/// status, each of them at least once and no one else.
pub open spec fn lists_subscribers_with(
    stores: Stores,
    status: SubscriberStatus,
    ids: Seq<u128>,
) -> bool {
    &&& forall|i: int|
        0 <= i < ids.len() ==> stores.subscribers.contains_key(#[trigger] ids[i])
            && stores.subscribers[ids[i]].status == status
    &&& forall|id: u128| #[trigger]
        stores.subscribers.contains_key(id) && stores.subscribers[id].status == status
            ==> ids.contains(id)
}

/// The addresses of the subscribers that a list of ids names, in order.
pub open spec fn addresses_of(stores: Stores, ids: Seq<u128>) -> Seq<Seq<char>> {
    Seq::new(ids.len(), |i: int| stores.subscribers[ids[i]].email)
}

/// What a broadcast has done when it is answered: the message that went
/// to the provider, if one did, and the answer.
pub struct BroadcastOutcome {
    pub sent: Option<EmailRequestView>,
    pub answer: Option<Result<(), PublishNewsletterErrorView>>,
}

/// Runs a broadcast from a turn on, for at most `steps` actions, against a
/// store that answers the query with the addresses of `ids` and a
/// provider that delivers.
pub open spec fn run_broadcast(
    stores: Stores,
    ids: Seq<u128>,
    turn: (BroadcastStateView, Option<BroadcastActionView>),
    client: EmailClientView,
    sent: Option<EmailRequestView>,
    steps: nat,
) -> BroadcastOutcome
    decreases steps,
{
    match turn.1 {
        Some(BroadcastActionView::Respond(answer)) => BroadcastOutcome {
            sent,
            answer: Some(answer),
        },
        Some(action) => {
            if steps == 0 {
                BroadcastOutcome { sent, answer: None }
            } else {
                match action {
                    BroadcastActionView::SendEmail(request) => run_broadcast(
                        stores,
                        ids,
                        broadcast_step(turn.0, BroadcastEventView::EmailSent(Ok(())), client),
                        client,
                        Some(request),
                        (steps - 1) as nat,
                    ),
                    _ => run_broadcast(
                        stores,
                        ids,
                        broadcast_step(
                            turn.0,
                            BroadcastEventView::Subscribers(Ok(addresses_of(stores, ids))),
                            client,
                        ),
                        client,
                        sent,
                        (steps - 1) as nat,
                    ),
                }
            }
        },
        None => BroadcastOutcome { sent, answer: None },
    }
}

/// A broadcast, run to its answer, where the store answers the query for
/// the subscribers with a status by the addresses of `ids`.
pub open spec fn broadcast(
    stores: Stores,
    ids: Seq<u128>,
    title: Seq<char>,
    html: Seq<char>,
    client: EmailClientView,
) -> BroadcastOutcome {
    run_broadcast(stores, ids, broadcast_start(title, html), client, None, 2)
}

/// An issue without a title or without a body is refused, and nothing is
/// sent.
pub proof fn lemma_invalid_issue_is_refused(
    stores: Stores,
    ids: Seq<u128>,
    title: Seq<char>,
    html: Seq<char>,
    client: EmailClientView,
)
    requires
        !is_valid_issue(title, html),
    ensures
        broadcast(stores, ids, title, html, client) == (BroadcastOutcome {
            sent: None,
            answer: Some(
                Err(PublishNewsletterErrorView::ValidationError(invalid_issue_message(title, html))),
            ),
        }),
{
    reveal_with_fuel(run_broadcast, 3);
}

/// Where no subscriber is confirmed, a broadcast succeeds and nothing is
/// sent.
pub proof fn lemma_broadcast_without_confirmed_sends_nothing(
    stores: Stores,
    ids: Seq<u128>,
    title: Seq<char>,
    html: Seq<char>,
    client: EmailClientView,
)
    requires
        is_valid_issue(title, html),
        lists_subscribers_with(stores, SubscriberStatus::Confirmed, ids),
        forall|id: u128| #[trigger]
            stores.subscribers.contains_key(id) ==> stores.subscribers[id].status
                != SubscriberStatus::Confirmed,
    ensures
        broadcast(stores, ids, title, html, client) == (BroadcastOutcome {
            sent: None,
            answer: Some(Ok(())),
        }),
{
    reveal_with_fuel(run_broadcast, 3);
    if ids.len() > 0 {
        assert(stores.subscribers.contains_key(ids[0]));
    }
}

/// Where a subscriber is confirmed, a broadcast succeeds with one
/// message, which goes to the confirmed subscribers and to no one else,
/// with the title as its subject and the body unchanged.
pub proof fn lemma_broadcast_reaches_the_confirmed_only(
    stores: Stores,
    ids: Seq<u128>,
    title: Seq<char>,
    html: Seq<char>,
    client: EmailClientView,
)
    requires
        is_valid_issue(title, html),
        lists_subscribers_with(stores, SubscriberStatus::Confirmed, ids),
        ids.len() > 0,
    ensures
        broadcast(stores, ids, title, html, client) == (BroadcastOutcome {
            sent: Some(email_request(client, addresses_of(stores, ids), title, html)),
            answer: Some(Ok(())),
        }),
        forall|i: int|
            0 <= i < ids.len() ==> stores.subscribers[#[trigger] ids[i]].status
                == SubscriberStatus::Confirmed,
        forall|id: u128| #[trigger]
            stores.subscribers.contains_key(id) && stores.subscribers[id].status
                == SubscriberStatus::Confirmed ==> addresses_of(stores, ids).contains(
                stores.subscribers[id].email,
            ),
{
    reveal_with_fuel(run_broadcast, 3);
    assert forall|id: u128| #[trigger]
        stores.subscribers.contains_key(id) && stores.subscribers[id].status
            == SubscriberStatus::Confirmed implies addresses_of(stores, ids).contains(
        stores.subscribers[id].email,
    ) by {
        assert(ids.contains(id));
        let i = choose|i: int| 0 <= i < ids.len() && ids[i] == id;
        assert(addresses_of(stores, ids)[i] == stores.subscribers[id].email);
    }
}

} // verus!
