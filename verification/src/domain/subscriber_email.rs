//! The address at which a subscriber is reached.

use vstd::prelude::*;
use vstd::string::*;

verus! {

/// Whether a text passes the syntax check of an email address, which follows
/// the HTML5 definition of a valid address.
pub uninterp spec fn email_syntax_ok(text: Seq<char>) -> bool;

/// What every text that passes the syntax check has: it is not empty, it
/// holds an `@`, and it does not begin with one, so a local part precedes it.
pub open spec fn has_local_part_and_at(text: Seq<char>) -> bool {
    &&& text.len() > 0
    &&& text.contains('@')
    &&& text[0] != '@'
}

/// The message that rejects a text as an email address.
pub open spec fn invalid_email_message(text: Seq<char>) -> Seq<char> {
    text + " email is not valid"@
}

/// Checks the syntax of an address with `validator::validate_email`. The
/// verdict depends on the text alone. The function refuses an empty text and
/// one without `@`, and it matches what stands before the last `@` against a
/// pattern that asks for at least one character and admits no `@`: so an
/// accepted text does not begin with `@`.
#[verifier::external_body]
fn check_email_syntax(text: &str) -> (ok: bool)
    ensures
        ok == email_syntax_ok(text@),
        ok ==> has_local_part_and_at(text@),
{
    validator::validate_email(text)
}

/// An email address that passed the syntax check.
#[derive(Debug)]
pub struct SubscriberEmail(String);

impl View for SubscriberEmail {
    type V = Seq<char>;

    closed spec fn view(&self) -> Seq<char> {
        self.0@
    }
}

impl SubscriberEmail {
    #[verifier::type_invariant]
    spec fn valid(self) -> bool {
        email_syntax_ok(self.0@) && has_local_part_and_at(self.0@)
    }

    /// Accepts a text as an address if it passes the syntax check, and
    /// rejects it with a message that quotes it otherwise. A text that is
    /// empty, lacks an `@` or begins with one is always rejected.
    pub fn parse(email: String) -> (parsed: Result<SubscriberEmail, String>)
        ensures
            match parsed {
                Ok(accepted) => email_syntax_ok(email@) && accepted@ == email@,
                Err(message) => !email_syntax_ok(email@) && message@ == invalid_email_message(
                    email@,
                ),
            },
            !has_local_part_and_at(email@) ==> parsed is Err,
    {
        let is_valid_email = check_email_syntax(email.as_str());
        if !is_valid_email {
            return Err(email.concat(" email is not valid"));
        }
        Ok(Self(email))
    }

    /// The text of the address, which passes the syntax check.
    pub fn as_str(&self) -> (text: &str)
        ensures
            text@ == self@,
            email_syntax_ok(self@),
            has_local_part_and_at(self@),
    {
        proof {
            use_type_invariant(self);
        }
        self.0.as_str()
    }
}

impl Clone for SubscriberEmail {
    fn clone(&self) -> (copy: Self)
        ensures
            copy@ == self@,
    {
        proof {
            use_type_invariant(self);
        }
        Self(self.0.clone())
    }
}

impl PartialEq for SubscriberEmail {
    fn eq(&self, other: &Self) -> (same: bool) {
        self.0 == other.0
    }
}

impl vstd::std_specs::cmp::PartialEqSpecImpl for SubscriberEmail {
    open spec fn obeys_eq_spec() -> bool {
        true
    }

    open spec fn eq_spec(&self, other: &Self) -> bool {
        self@ == other@
    }
}

impl AsRef<str> for SubscriberEmail {
    fn as_ref(&self) -> (text: &str)
        ensures
            text@ == self@,
    {
        self.0.as_str()
    }
}

} // verus!
