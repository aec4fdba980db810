//! A text that is borrowed where that is possible.

use crate::error::DecodeError;
use crate::json::{decode_string, json_string};
use std::borrow::Cow;
use vstd::prelude::*;

verus! {

/// The text that `serde_json` hands out for the JSON string literal `text`
/// as a slice of the literal itself; `None` where it hands out none, as
/// for a literal that holds an escape.
pub uninterp spec fn json_borrowed(text: Seq<u8>) -> Option<Seq<char>>;

/// Calls `serde_json::from_slice` for a borrowed `&str`.
///
/// Trusted: the result is `json_borrowed`.
#[verifier::external_body]
fn decode_borrowed<'a>(raw: &'a [u8]) -> (r: Result<&'a str, serde_json::Error>)
    ensures
        r matches Ok(s) ==> json_borrowed(raw@) == Some(s@),
        r is Err ==> json_borrowed(raw@) is None,
{
    serde_json::from_slice::<&str>(raw)
}

/// What a text reads as: borrowed where `serde_json` can borrow it, and
/// owned where it can only decode it.
pub open spec fn text_of(raw: Seq<u8>) -> Result<(Seq<char>, bool), DecodeError> {
    match json_borrowed(raw) {
        Some(text) => Ok((text, true)),
        None => match json_string(raw) {
            Some(text) => Ok((text, false)),
            None => Err(DecodeError::UnexpectedType(None)),
        },
    }
}

/// A text that is either borrowed from the text it was read from or
/// owned.
#[derive(Debug, PartialEq, PartialOrd, Eq, Ord, Hash)]
pub struct CowStr<'a>(pub Cow<'a, str>);

impl<'a> CowStr<'a> {
    /// A borrowed text.
    pub fn from_str(s: &'a str) -> (r: Self)
        ensures
            r.0 == Cow::<'a, str>::Borrowed(s),
            r.0@ == s@,
    {
        CowStr(Cow::Borrowed(s))
    }

    /// Whether the text is borrowed.
    pub fn is_borrowed(&self) -> (r: bool)
        ensures
            r == (self.0 is Borrowed),
    {
        match &self.0 {
            Cow::Borrowed(_) => true,
            Cow::Owned(_) => false,
        }
    }

    /// Reads a text from a JSON string literal, and borrows it from the
    /// literal where the literal holds no escape.
    pub fn deserialize(raw: &'a [u8]) -> (r: Result<Self, DecodeError>)
        ensures
            match r {
                Ok(text) => text_of(raw@) == Ok::<(Seq<char>, bool), DecodeError>(
                    (text.0@, text.0 is Borrowed),
                ),
                Err(e) => text_of(raw@) == Err::<(Seq<char>, bool), DecodeError>(e),
            },
    {
        match decode_borrowed(raw) {
            Ok(text) => Ok(CowStr(Cow::Borrowed(text))),
            Err(_) => match decode_string(raw) {
                Ok(text) => Ok(CowStr(Cow::Owned(text))),
                Err(_) => Err(DecodeError::UnexpectedType(None)),
            },
        }
    }
}

} // verus!
