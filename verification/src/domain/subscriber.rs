//! A subscriber as the relational store holds it.

use crate::domain::subscriber_email::{email_syntax_ok, invalid_email_message, SubscriberEmail};
use crate::domain::subscriber_name::{invalid_name_message, is_valid_name, SubscriberName};
use crate::domain::subscriber_status::{
    invalid_status_message, status_of_text, SubscriberStatus,
};
use crate::text::push_char;
use vstd::prelude::*;
use vstd::string::*;

verus! {

/// A moment in UTC: the seconds since 1970-01-01 00:00:00 and the
/// nanoseconds since the last full second.
#[derive(Debug, Clone, Copy, PartialEq, Eq, Structural)]
pub struct Timestamp {
    pub seconds: i64,
    pub nanos: u32,
}

/// Whether a subscriber's id has the shape of a random (version 4) UUID:
/// the version digit is 4 and the two variant bits are `10`.
pub open spec fn is_random_id(id: u128) -> bool {
    &&& (id >> 76u128) & 0xFu128 == 4
    &&& (id >> 62u128) & 0x3u128 == 2
}

/// The lower-case hexadecimal digit of a number below sixteen.
pub open spec fn hex_digit(nibble: u128) -> char
    recommends
        nibble < 16,
{
    if nibble < 10 {
        (0x30 + nibble) as u8 as char
    } else {
        (0x61 + nibble - 10) as u8 as char
    }
}

/// The hexadecimal digit of an id at a place, counted from the most
/// significant, which is place 0, to place 31.
pub open spec fn id_digit(id: u128, place: int) -> char
    recommends
        0 <= place < 32,
{
    hex_digit((id >> ((4 * (31 - place)) as u128)) & 0xFu128)
}

/// Whether a hyphen stands at a position of the text of an id.
pub open spec fn is_hyphen_position(position: int) -> bool {
    position == 8 || position == 13 || position == 18 || position == 23
}

/// The place of the digit that stands at a position of the text of an
/// id: the position less the hyphens before it.
pub open spec fn place_at(position: int) -> int {
    if position < 8 {
        position
    } else if position < 13 {
        position - 1
    } else if position < 18 {
        position - 2
    } else if position < 23 {
        position - 3
    } else {
        position - 4
    }
}

/// The text of an id: its thirty-two lower-case hexadecimal digits in the
/// groups 8-4-4-4-12, joined by hyphens.
pub open spec fn id_text(id: u128) -> Seq<char> {
    Seq::new(
        36,
        |position: int|
            if is_hyphen_position(position) {
                '-'
            } else {
                id_digit(id, place_at(position))
            },
    )
}

/// The id that a text stands for, if the text is a UUID in one of its
/// written forms.
pub uninterp spec fn id_of_text(text: Seq<char>) -> Option<u128>;

/// Draws a fresh id with `uuid::Uuid::new_v4`, which fills all bits at
/// random but the six that mark version 4 and the RFC variant.
#[verifier::external_body]
pub(crate) fn new_subscriber_id() -> (id: u128)
    ensures
        is_random_id(id),
{
    uuid::Uuid::new_v4().as_u128()
}

/// Reads an id with `uuid::Uuid::parse_str`. The outcome depends on the
/// text alone. The function reads, among other forms, thirty-two
/// hexadecimal digits in the groups 8-4-4-4-12 as the id with these
/// digits: so the text of an id reads as that id.
#[verifier::external_body]
pub(crate) fn parse_subscriber_id(text: &str) -> (id: Option<u128>)
    ensures
        id == id_of_text(text@),
        forall|written: u128| text@ == #[trigger] id_text(written) ==> id == Some(written),
{
    match uuid::Uuid::parse_str(text) {
        Ok(id) => Some(id.as_u128()),
        Err(_) => None,
    }
}

/// Writes an id as text.
pub fn subscriber_id_text(id: u128) -> (text: String)
    ensures
        text@ == id_text(id),
{
    let mut text = String::new();
    let mut position: usize = 0;
    while position < 36
        invariant
            position <= 36,
            text@.len() == position,
            forall|j: int| 0 <= j < position ==> text@[j] == #[trigger] id_text(id)[j],
        decreases 36 - position,
    {
        if position == 8 || position == 13 || position == 18 || position == 23 {
            push_char(&mut text, '-');
        } else {
            let place: usize = if position < 8 {
                position
            } else if position < 13 {
                position - 1
            } else if position < 18 {
                position - 2
            } else if position < 23 {
                position - 3
            } else {
                position - 4
            };
            let shift: u128 = (4 * (31 - place)) as u128;
            let nibble: u128 = (id >> shift) & 0xFu128;
            assert(nibble < 16) by (bit_vector)
                requires
                    nibble == (id >> shift) & 0xFu128,
            ;
            let digit: u8 = if nibble < 10 {
                0x30u8 + (nibble as u8)
            } else {
                0x61u8 + ((nibble as u8) - 10)
            };
            push_char(&mut text, digit as char);
        }
        position = position + 1;
    }
    assert(text@ =~= id_text(id));
    text
}

/// Reads the clock with `chrono::Utc::now`, which fails rather than return
/// a moment before 1970 and counts the nanoseconds below one second.
#[verifier::external_body]
pub(crate) fn now_utc() -> (now: Timestamp)
    ensures
        now.seconds >= 0,
        now.nanos < 1_000_000_000,
{
    let now = chrono::Utc::now();
    Timestamp { seconds: now.timestamp(), nanos: now.timestamp_subsec_nanos() }
}

/// A person who asked for the newsletter.
#[derive(Debug)]
pub struct Subscriber {
    pub id: u128,
    pub email: SubscriberEmail,
    pub name: SubscriberName,
    pub status: SubscriberStatus,
    pub subscribed_at: Timestamp,
}

/// A subscriber as mathematical data.
pub struct SubscriberView {
    pub id: u128,
    pub email: Seq<char>,
    pub name: Seq<char>,
    pub status: SubscriberStatus,
    pub subscribed_at: Timestamp,
}

impl View for Subscriber {
    type V = SubscriberView;

    open spec fn view(&self) -> SubscriberView {
        SubscriberView {
            id: self.id,
            email: self.email@,
            name: self.name@,
            status: self.status,
            subscribed_at: self.subscribed_at,
        }
    }
}

/// A row of the subscriber table, with its columns as they are stored.
#[derive(Debug)]
pub struct SubscriberRow {
    pub id: u128,
    pub email: String,
    pub name: String,
    pub status: String,
    pub subscribed_at: Timestamp,
}

/// Whether every column of a row holds a value of its domain.
pub open spec fn row_is_readable(row: SubscriberRow) -> bool {
    &&& email_syntax_ok(row.email@)
    &&& is_valid_name(row.name@)
    &&& status_of_text(row.status@) is Some
}

/// The subscriber that a readable row stands for.
pub open spec fn subscriber_of_row(row: SubscriberRow) -> SubscriberView {
    SubscriberView {
        id: row.id,
        email: row.email@,
        name: row.name@,
        status: status_of_text(row.status@).unwrap(),
        subscribed_at: row.subscribed_at,
    }
}

/// The message that rejects a row: that of the first column, in the order
/// email, name, status, that holds no value of its domain.
pub open spec fn unreadable_row_message(row: SubscriberRow) -> Seq<char> {
    if !email_syntax_ok(row.email@) {
        invalid_email_message(row.email@)
    } else if !is_valid_name(row.name@) {
        invalid_name_message(row.name@)
    } else {
        invalid_status_message(row.status@)
    }
}

impl Subscriber {
    /// Reads a subscriber from a row. A row with a column that holds no
    /// value of its domain is rejected with that column's message.
    pub fn from_row(row: SubscriberRow) -> (read: Result<Subscriber, String>)
        ensures
            match read {
                Ok(subscriber) => row_is_readable(row) && subscriber@ == subscriber_of_row(row),
                Err(message) => !row_is_readable(row) && message@ == unreadable_row_message(
                    row,
                ),
            },
    {
        let SubscriberRow { id, email, name, status, subscribed_at } = row;
        let email = match SubscriberEmail::parse(email) {
            Ok(email) => email,
            Err(message) => {
                return Err(message);
            },
        };
        let name = match SubscriberName::parse(name) {
            Ok(name) => name,
            Err(message) => {
                return Err(message);
            },
        };
        let status = match SubscriberStatus::parse(status) {
            Ok(status) => status,
            Err(message) => {
                return Err(message);
            },
        };
        Ok(Subscriber { id, email, name, status, subscribed_at })
    }
}

} // verus!
