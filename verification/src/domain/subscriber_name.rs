//! The name under which a person subscribes.

use vstd::prelude::*;
use vstd::string::*;

verus! {

/// The longest name accepted, counted in extended grapheme clusters.
pub const MAX_NAME_GRAPHEMES: usize = 256;

/// Whether a character has the Unicode property White_Space.
pub open spec fn is_white_space(c: char) -> bool {
    let v = c as u32;
    (0x09 <= v <= 0x0D) || v == 0x20 || v == 0x85 || v == 0xA0 || v == 0x1680 || (0x2000 <= v
        <= 0x200A) || v == 0x2028 || v == 0x2029 || v == 0x202F || v == 0x205F || v == 0x3000
}

/// Whether nothing is left of a text once white space is trimmed from both ends.
pub open spec fn is_blank(text: Seq<char>) -> bool {
    forall|i: int| 0 <= i < text.len() ==> is_white_space(#[trigger] text[i])
}

/// Whether a character may not occur in a name.
pub open spec fn is_forbidden_char(c: char) -> bool {
    c == '/' || c == '{' || c == '}' || c == '"' || c == '>' || c == '<' || c == '\\' || c == '('
        || c == ')'
}

/// Whether a text holds a character that may not occur in a name.
pub open spec fn has_forbidden_char(text: Seq<char>) -> bool {
    exists|i: int| 0 <= i < text.len() && is_forbidden_char(#[trigger] text[i])
}

/// The number of extended grapheme clusters of a text.
pub uninterp spec fn grapheme_count(text: Seq<char>) -> nat;

/// The rules of a name, for a text with a given number of grapheme clusters.
pub open spec fn name_rules_hold(text: Seq<char>, graphemes: nat) -> bool {
    &&& !is_blank(text)
    &&& graphemes <= MAX_NAME_GRAPHEMES
    &&& !has_forbidden_char(text)
}

/// Whether a text is accepted as a subscriber's name.
pub open spec fn is_valid_name(text: Seq<char>) -> bool {
    name_rules_hold(text, grapheme_count(text))
}

/// The message that rejects a text as a name.
pub open spec fn invalid_name_message(text: Seq<char>) -> Seq<char> {
    text + " is not a valid subscriber name"@
}

/// Counts the extended grapheme clusters of a text with
/// `unicode_segmentation::UnicodeSegmentation::graphemes`. The count depends
/// on the text alone; nothing more is claimed of it.
#[verifier::external_body]
fn count_graphemes(text: &str) -> (count: usize)
    ensures
        count == grapheme_count(text@),
{
    unicode_segmentation::UnicodeSegmentation::graphemes(text, true).count()
}

/// Whether a character has the Unicode property White_Space.
pub fn char_is_white_space(c: char) -> (white: bool)
    ensures
        white == is_white_space(c),
{
    let v: u32 = c as u32;
    (0x09 <= v && v <= 0x0D) || v == 0x20 || v == 0x85 || v == 0xA0 || v == 0x1680 || (0x2000 <= v
        && v <= 0x200A) || v == 0x2028 || v == 0x2029 || v == 0x202F || v == 0x205F || v == 0x3000
}

/// Whether a character may not occur in a name.
pub fn char_is_forbidden(c: char) -> (forbidden: bool)
    ensures
        forbidden == is_forbidden_char(c),
{
    c == '/' || c == '{' || c == '}' || c == '"' || c == '>' || c == '<' || c == '\\' || c == '('
        || c == ')'
}

/// Whether a text is empty or holds white space only.
pub fn is_empty_or_whitespace(text: &str) -> (blank: bool)
    ensures
        blank == is_blank(text@),
{
    let mut blank = true;
    for c in it: text.chars()
        invariant
            it.seq() == text@,
            blank == forall|i: int| 0 <= i < it.index() ==> is_white_space(#[trigger] text@[i]),
    {
        if !char_is_white_space(c) {
            blank = false;
        }
    }
    blank
}

/// Whether a text holds a character that may not occur in a name.
pub fn contains_forbidden_char(text: &str) -> (found: bool)
    ensures
        found == has_forbidden_char(text@),
{
    let mut found = false;
    for c in it: text.chars()
        invariant
            it.seq() == text@,
            found == exists|i: int| 0 <= i < it.index() && is_forbidden_char(#[trigger] text@[i]),
    {
        if char_is_forbidden(c) {
            found = true;
        }
    }
    found
}

/// Applies the rules of a name to a text whose grapheme clusters were counted.
pub fn name_is_acceptable(text: &str, graphemes: usize) -> (ok: bool)
    ensures
        ok == name_rules_hold(text@, graphemes as nat),
{
    let is_empty_or_whitespace = is_empty_or_whitespace(text);
    let is_too_long = graphemes > MAX_NAME_GRAPHEMES;
    let contains_forbidden_chars = contains_forbidden_char(text);
    !(is_empty_or_whitespace || is_too_long || contains_forbidden_chars)
}

/// A subscriber's name: not blank, at most 256 grapheme clusters, and free
/// of the characters `/ { } " > < \ ( )`.
#[derive(Debug)]
pub struct SubscriberName(String);

impl View for SubscriberName {
    type V = Seq<char>;

    closed spec fn view(&self) -> Seq<char> {
        self.0@
    }
}

impl SubscriberName {
    #[verifier::type_invariant]
    spec fn valid(self) -> bool {
        is_valid_name(self.0@)
    }

    /// Accepts a text as a name if it keeps the rules, and rejects it with a
    /// message that quotes it otherwise.
    pub fn parse(name: String) -> (parsed: Result<SubscriberName, String>)
        ensures
            match parsed {
                Ok(accepted) => is_valid_name(name@) && accepted@ == name@,
                Err(message) => !is_valid_name(name@) && message@ == invalid_name_message(name@),
            },
    {
        let graphemes = count_graphemes(name.as_str());
        if !name_is_acceptable(name.as_str(), graphemes) {
            return Err(name.concat(" is not a valid subscriber name"));
        }
        Ok(Self(name))
    }

    /// The text of the name, which keeps the rules of a name.
    pub fn as_str(&self) -> (text: &str)
        ensures
            text@ == self@,
            is_valid_name(self@),
    {
        proof {
            use_type_invariant(self);
        }
        self.0.as_str()
    }
}

impl AsRef<str> for SubscriberName {
    fn as_ref(&self) -> (text: &str)
        ensures
            text@ == self@,
    {
        self.0.as_str()
    }
}

} // verus!
