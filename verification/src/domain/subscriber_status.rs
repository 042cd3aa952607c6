//! The state of a subscription and its canonical text.

use crate::text::str_eq;
use vstd::prelude::*;
use vstd::string::*;

verus! {

/// Where a subscriber stands in the opt-in lifecycle.
#[derive(Debug, Clone, Copy, PartialEq, Eq, Structural)]
pub enum SubscriberStatus {
    Pending,
    Confirmed,
    Unsubscribed,
}

/// The canonical text of a status, as it is persisted.
pub open spec fn status_text(status: SubscriberStatus) -> Seq<char> {
    match status {
        SubscriberStatus::Pending => "pending_confirmation"@,
        SubscriberStatus::Confirmed => "confirmed"@,
        SubscriberStatus::Unsubscribed => "unsubscribed"@,
    }
}

/// The status that a text stands for, if it is one of the three canonical texts.
pub open spec fn status_of_text(text: Seq<char>) -> Option<SubscriberStatus> {
    if text == "pending_confirmation"@ {
        Some(SubscriberStatus::Pending)
    } else if text == "confirmed"@ {
        Some(SubscriberStatus::Confirmed)
    } else if text == "unsubscribed"@ {
        Some(SubscriberStatus::Unsubscribed)
    } else {
        None
    }
}

/// The message that rejects a text as a status.
pub open spec fn invalid_status_message(text: Seq<char>) -> Seq<char> {
    text + " is not a valid subscriber status"@
}

/// Reading back the canonical text of a status gives that status.
pub proof fn lemma_status_round_trip(status: SubscriberStatus)
    ensures
        status_of_text(status_text(status)) == Some(status),
{
    reveal_strlit("pending_confirmation");
    reveal_strlit("confirmed");
    reveal_strlit("unsubscribed");
    assert("pending_confirmation"@.len() == 20);
    assert("confirmed"@.len() == 9);
    assert("unsubscribed"@.len() == 12);
}

/// A text that reads as a status is the canonical text of that status.
pub proof fn lemma_status_text_is_canonical(text: Seq<char>)
    ensures
        status_of_text(text) matches Some(status) ==> status_text(status) == text,
{
}

impl SubscriberStatus {
    pub fn is_pending(&self) -> (yes: bool)
        ensures
            yes == (*self == SubscriberStatus::Pending),
    {
        matches!(self, SubscriberStatus::Pending)
    }

    pub fn is_confirmed(&self) -> (yes: bool)
        ensures
            yes == (*self == SubscriberStatus::Confirmed),
    {
        matches!(self, SubscriberStatus::Confirmed)
    }

    pub fn is_unsubscribed(&self) -> (yes: bool)
        ensures
            yes == (*self == SubscriberStatus::Unsubscribed),
    {
        matches!(self, SubscriberStatus::Unsubscribed)
    }

    /// Reads a status from its canonical text. Any other text is rejected
    /// with a message that quotes it.
    pub fn parse(status: String) -> (parsed: Result<SubscriberStatus, String>)
        ensures
            match parsed {
                Ok(s) => status_of_text(status@) == Some(s),
                Err(message) => status_of_text(status@) is None && message@
                    == invalid_status_message(status@),
            },
    {
        if str_eq(status.as_str(), "pending_confirmation") {
            Ok(SubscriberStatus::Pending)
        } else if str_eq(status.as_str(), "confirmed") {
            Ok(SubscriberStatus::Confirmed)
        } else if str_eq(status.as_str(), "unsubscribed") {
            Ok(SubscriberStatus::Unsubscribed)
        } else {
            Err(status.concat(" is not a valid subscriber status"))
        }
    }

    /// The canonical text of the status.
    pub fn as_str(&self) -> (text: &'static str)
        ensures
            text@ == status_text(*self),
    {
        match self {
            SubscriberStatus::Pending => "pending_confirmation",
            SubscriberStatus::Confirmed => "confirmed",
            SubscriberStatus::Unsubscribed => "unsubscribed",
        }
    }
}

impl AsRef<str> for SubscriberStatus {
    fn as_ref(&self) -> (text: &str)
        ensures
            text@ == status_text(*self),
    {
        self.as_str()
    }
}

} // verus!
