//! Why decoding a document, or reaching into one, can fail.

use vstd::prelude::*;
use vstd::string::StringExecFns;

verus! {

/// The ways in which a document or one of its values is rejected.
///
/// An error that concerns one member of an object names that member. A
/// value that was decoded on its own, or as an element of an array or
/// under a key that no shape fixes, has no name to go by.
#[derive(Debug, Clone, Copy, PartialEq, Eq)]
pub enum DecodeError {
    /// The bytes are not one syntactically valid JSON value.
    MalformedDocument,
    /// A member that the shape requires is absent.
    MissingRequiredField(&'static str),
    /// A member that the shape names occurs more than once.
    DuplicateField(&'static str),
    /// A value is present but is not of the JSON type that the shape asks
    /// for.
    UnexpectedType(Option<&'static str>),
    /// An identifier is neither a string of decimal digits nor an unsigned
    /// number, or does not fit in 64 bits.
    InvalidIdentifier(Option<&'static str>),
    /// A path names a member or an element that the document does not have.
    PathNotFound,
}

impl DecodeError {
    /// The error as it is reported for the member `name`: an error that
    /// names no member yet comes to name this one, and any other stays as
    /// it is, so that the innermost member is the one that is named.
    pub open spec fn at(self, name: &'static str) -> DecodeError {
        match self {
            DecodeError::UnexpectedType(None) => DecodeError::UnexpectedType(Some(name)),
            DecodeError::InvalidIdentifier(None) => DecodeError::InvalidIdentifier(Some(name)),
            other => other,
        }
    }

    /// Names the member that the error concerns, unless it names one.
    pub fn named(self, name: &'static str) -> (r: DecodeError)
        ensures
            r == self.at(name),
    {
        match self {
            DecodeError::UnexpectedType(None) => DecodeError::UnexpectedType(Some(name)),
            DecodeError::InvalidIdentifier(None) => DecodeError::InvalidIdentifier(Some(name)),
            other => other,
        }
    }

    /// The member that the error names, if it names one.
    pub open spec fn member(self) -> Option<&'static str> {
        match self {
            DecodeError::MissingRequiredField(name) => Some(name),
            DecodeError::DuplicateField(name) => Some(name),
            DecodeError::UnexpectedType(name) => name,
            DecodeError::InvalidIdentifier(name) => name,
            _ => None,
        }
    }

    /// The member that the error names, if it names one.
    pub fn field(&self) -> (r: Option<&'static str>)
        ensures
            r == self.member(),
    {
        match self {
            DecodeError::MissingRequiredField(name) => Some(*name),
            DecodeError::DuplicateField(name) => Some(*name),
            DecodeError::UnexpectedType(name) => *name,
            DecodeError::InvalidIdentifier(name) => *name,
            _ => None,
        }
    }

    /// The error in words.
    pub open spec fn message(self) -> Seq<char> {
        match self {
            DecodeError::MalformedDocument => "the document is not valid JSON"@,
            DecodeError::MissingRequiredField(name) => "missing field `"@ + name@ + "`"@,
            DecodeError::DuplicateField(name) => "duplicate field `"@ + name@ + "`"@,
            DecodeError::UnexpectedType(None) => "a value is not of the expected type"@,
            DecodeError::UnexpectedType(Some(name)) => "field `"@ + name@
                + "` is not of the expected type"@,
            DecodeError::InvalidIdentifier(None) =>
                "an identifier is not an unsigned 64-bit number"@,
            DecodeError::InvalidIdentifier(Some(name)) => "field `"@ + name@
                + "` is not an unsigned 64-bit number"@,
            DecodeError::PathNotFound => "the path leads nowhere in the document"@,
        }
    }

    /// The error in words, with the name of the member that it concerns.
    pub fn describe(&self) -> (r: String)
        ensures
            r@ == self.message(),
    {
        match self {
            DecodeError::MalformedDocument => String::from_str("the document is not valid JSON"),
            DecodeError::MissingRequiredField(name) => quoted("missing field `", name, "`"),
            DecodeError::DuplicateField(name) => quoted("duplicate field `", name, "`"),
            DecodeError::UnexpectedType(None) => String::from_str(
                "a value is not of the expected type",
            ),
            DecodeError::UnexpectedType(Some(name)) => quoted(
                "field `",
                name,
                "` is not of the expected type",
            ),
            DecodeError::InvalidIdentifier(None) => String::from_str(
                "an identifier is not an unsigned 64-bit number",
            ),
            DecodeError::InvalidIdentifier(Some(name)) => quoted(
                "field `",
                name,
                "` is not an unsigned 64-bit number",
            ),
            DecodeError::PathNotFound => String::from_str("the path leads nowhere in the document"),
        }
    }
}

/// A name with a text before it and a text behind it.
fn quoted(before: &str, name: &str, behind: &str) -> (r: String)
    ensures
        r@ == before@ + name@ + behind@,
{
    let mut text = String::from_str(before);
    text.append(name);
    text.append(behind);
    text
}

} // verus!
