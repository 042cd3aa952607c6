//! A request to subscribe, before and after validation.

use crate::domain::subscriber_email::{email_syntax_ok, invalid_email_message, SubscriberEmail};
use crate::domain::subscriber_name::{invalid_name_message, is_valid_name, SubscriberName};
use vstd::prelude::*;
use vstd::string::*;

verus! {

/// A request to subscribe whose name and address were accepted.
pub struct NewSubscriber {
    pub email: SubscriberEmail,
    pub name: SubscriberName,
}

/// A request to subscribe as it arrives.
pub struct NewSubscriberBody {
    pub name: String,
    pub email: String,
}

/// Whether a request to subscribe is accepted.
pub open spec fn is_valid_request(name: Seq<char>, email: Seq<char>) -> bool {
    is_valid_name(name) && email_syntax_ok(email)
}

/// The message that rejects a request: that of the name if the name is
/// not accepted, else that of the address.
pub open spec fn invalid_request_message(name: Seq<char>, email: Seq<char>) -> Seq<char> {
    if !is_valid_name(name) {
        invalid_name_message(name)
    } else {
        invalid_email_message(email)
    }
}

impl NewSubscriber {
    /// Validates a request: first the name, then the address.
    pub fn try_from(body: NewSubscriberBody) -> (parsed: Result<NewSubscriber, String>)
        ensures
            match parsed {
                Ok(accepted) => is_valid_request(body.name@, body.email@) && accepted.name@
                    == body.name@ && accepted.email@ == body.email@,
                Err(message) => !is_valid_request(body.name@, body.email@) && message@
                    == invalid_request_message(body.name@, body.email@),
            },
    {
        let NewSubscriberBody { name, email } = body;
        let name = match SubscriberName::parse(name) {
            Ok(name) => name,
            Err(message) => {
                return Err(message);
            },
        };
        let email = match SubscriberEmail::parse(email) {
            Ok(email) => email,
            Err(message) => {
                return Err(message);
            },
        };
        Ok(NewSubscriber { email, name })
    }
}

} // verus!
