//! Decoding the text of one JSON value into a typed value.

use crate::error::DecodeError;
use crate::id::{deserialize, wire_id, Id};
use crate::json::{
    array_elements, decode_bool, decode_null, decode_string, decode_u64, document_span, is_array,
    json_bool, json_null, json_string, json_u64, lemma_elements_from, lemma_skip_ws_bounds,
    parse_document, parse_elements, skip_ws, Span,
};
use vstd::prelude::*;
use vstd::slice::slice_to_vec;

verus! {

/// A type that can be read from the text of one JSON value.
///
/// `rejects` and `holds` say, for every text, whether it decodes and what
/// a decoded value holds; `from_json` computes both.
pub trait FromJson: Sized {
    /// Why `raw` does not decode to a value of this type; `None` where it
    /// does.
    spec fn rejects(raw: Seq<u8>) -> Option<DecodeError>;

    /// `self` holds what `raw` says.
    spec fn holds(&self, raw: Seq<u8>) -> bool;

    fn from_json(raw: &[u8]) -> (r: Result<Self, DecodeError>)
        ensures
            match r {
                Ok(v) => Self::rejects(raw@) is None && v.holds(raw@),
                Err(e) => Self::rejects(raw@) == Some(e),
            },
    ;
}

/// The first of two reasons to reject, if there is any.
pub open spec fn first(a: Option<DecodeError>, b: Option<DecodeError>) -> Option<DecodeError> {
    if a is Some {
        a
    } else {
        b
    }
}

/// Reasons to reject, taken in order.
pub trait Reasons: Sized {
    /// This reason if there is one, and otherwise the next.
    spec fn otherwise(self, next: Self) -> Self;
}

impl Reasons for Option<DecodeError> {
    open spec fn otherwise(self, next: Self) -> Self {
        first(self, next)
    }
}

impl FromJson for String {
    open spec fn rejects(raw: Seq<u8>) -> Option<DecodeError> {
        if json_string(raw) is Some {
            None
        } else {
            Some(DecodeError::UnexpectedType(None))
        }
    }

    open spec fn holds(&self, raw: Seq<u8>) -> bool {
        json_string(raw) == Some(self@)
    }

    fn from_json(raw: &[u8]) -> (r: Result<Self, DecodeError>) {
        match decode_string(raw) {
            Ok(text) => Ok(text),
            Err(_) => Err(DecodeError::UnexpectedType(None)),
        }
    }
}

impl FromJson for u64 {
    open spec fn rejects(raw: Seq<u8>) -> Option<DecodeError> {
        if json_u64(raw) is Some {
            None
        } else {
            Some(DecodeError::UnexpectedType(None))
        }
    }

    open spec fn holds(&self, raw: Seq<u8>) -> bool {
        json_u64(raw) == Some(*self)
    }

    fn from_json(raw: &[u8]) -> (r: Result<Self, DecodeError>) {
        match decode_u64(raw) {
            Ok(n) => Ok(n),
            Err(_) => Err(DecodeError::UnexpectedType(None)),
        }
    }
}

impl FromJson for bool {
    open spec fn rejects(raw: Seq<u8>) -> Option<DecodeError> {
        if json_bool(raw) is Some {
            None
        } else {
            Some(DecodeError::UnexpectedType(None))
        }
    }

    open spec fn holds(&self, raw: Seq<u8>) -> bool {
        json_bool(raw) == Some(*self)
    }

    fn from_json(raw: &[u8]) -> (r: Result<Self, DecodeError>) {
        match decode_bool(raw) {
            Some(b) => Ok(b),
            None => Err(DecodeError::UnexpectedType(None)),
        }
    }
}

impl FromJson for Id {
    open spec fn rejects(raw: Seq<u8>) -> Option<DecodeError> {
        match wire_id(raw) {
            Ok(_) => None,
            Err(e) => Some(e),
        }
    }

    open spec fn holds(&self, raw: Seq<u8>) -> bool {
        wire_id(raw) == Ok::<u64, DecodeError>(self.value())
    }

    fn from_json(raw: &[u8]) -> (r: Result<Self, DecodeError>) {
        match deserialize(raw) {
            Ok(id) => Ok(Id::new(id)),
            Err(e) => Err(e),
        }
    }
}

/// `null` decodes to `None`; any other text must decode to the inner type.
impl<T: FromJson> FromJson for Option<T> {
    open spec fn rejects(raw: Seq<u8>) -> Option<DecodeError> {
        if json_null(raw) {
            None
        } else {
            T::rejects(raw)
        }
    }

    open spec fn holds(&self, raw: Seq<u8>) -> bool {
        if json_null(raw) {
            *self is None
        } else {
            match *self {
                Some(v) => v.holds(raw),
                None => false,
            }
        }
    }

    fn from_json(raw: &[u8]) -> (r: Result<Self, DecodeError>) {
        if decode_null(raw) {
            Ok(None)
        } else {
            match T::from_json(raw) {
                Ok(v) => Ok(Some(v)),
                Err(e) => Err(e),
            }
        }
    }
}

/// The reason to reject the first element, from `from` on, that does not
/// decode to a `T`.
pub open spec fn first_rejected<T: FromJson>(
    raw: Seq<u8>,
    elements: Seq<Span>,
    from: int,
) -> Option<DecodeError>
    decreases elements.len() - from,
{
    if 0 <= from < elements.len() {
        first(T::rejects(elements[from].of(raw)), first_rejected::<T>(raw, elements, from + 1))
    } else {
        None
    }
}

/// The elements of the array that is all of `raw`.
pub open spec fn list(raw: Seq<u8>) -> Result<Seq<Span>, DecodeError> {
    match document_span(raw) {
        None => Err(DecodeError::MalformedDocument),
        Some(span) => if !is_array(raw, span) {
            Err(DecodeError::UnexpectedType(None))
        } else {
            match array_elements(raw, span) {
                None => Err(DecodeError::MalformedDocument),
                Some(elements) => Ok(elements),
            }
        },
    }
}

/// Reads `raw`, which must be one JSON array, into the spans of its
/// elements.
pub fn parse_list(raw: &[u8]) -> (r: Result<Vec<Span>, DecodeError>)
    ensures
        match r {
            Ok(elements) => {
                &&& list(raw@) == Ok::<Seq<Span>, DecodeError>(elements@)
                &&& forall|i: int|
                    0 <= i < elements@.len() ==> (#[trigger] elements@[i]).start
                        < elements@[i].end <= raw@.len()
            },
            Err(e) => list(raw@) == Err::<Seq<Span>, DecodeError>(e),
        },
{
    let span = match parse_document(raw) {
        Ok(span) => span,
        Err(e) => { return Err(e); },
    };
    proof {
        if is_array(raw@, span) {
            lemma_skip_ws_bounds(raw@, span.start + 1);
            lemma_elements_from(raw@, skip_ws(raw@, span.start + 1), span.end as int, true);
        }
    }
    parse_elements(raw, span)
}

/// An array decodes element by element, in order; the first element that
/// is rejected rejects the array.
impl<T: FromJson> FromJson for Vec<T> {
    open spec fn rejects(raw: Seq<u8>) -> Option<DecodeError> {
        match list(raw) {
            Err(e) => Some(e),
            Ok(elements) => first_rejected::<T>(raw, elements, 0),
        }
    }

    open spec fn holds(&self, raw: Seq<u8>) -> bool {
        match list(raw) {
            Err(_) => false,
            Ok(elements) => {
                &&& self@.len() == elements.len()
                &&& forall|i: int|
                    0 <= i < elements.len() ==> (#[trigger] self@[i]).holds(elements[i].of(raw))
            },
        }
    }

    fn from_json(raw: &[u8]) -> (r: Result<Self, DecodeError>) {
        let elements = match parse_list(raw) {
            Ok(elements) => elements,
            Err(e) => { return Err(e); },
        };
        let mut values: Vec<T> = Vec::new();
        let mut i: usize = 0;
        while i < elements.len()
            invariant
                i <= elements.len(),
                values@.len() == i,
                list(raw@) == Ok::<Seq<Span>, DecodeError>(elements@),
                forall|k: int|
                    0 <= k < elements@.len() ==> (#[trigger] elements@[k]).start < elements@[k].end
                        <= raw@.len(),
                forall|k: int| 0 <= k < i ==> (#[trigger] values@[k]).holds(elements@[k].of(raw@)),
                first_rejected::<T>(raw@, elements@, 0) == first_rejected::<T>(
                    raw@,
                    elements@,
                    i as int,
                ),
            decreases elements.len() - i,
        {
            let element = elements[i];
            match T::from_json(&raw[element.start..element.end]) {
                Ok(value) => {
                    values.push(value);
                },
                Err(e) => {
                    return Err(e);
                },
            }
            i = i + 1;
        }
        Ok(values)
    }
}

/// The text of one JSON value, kept as it was sent and decoded when a
/// caller asks.
#[derive(Debug, Clone)]
pub struct RawJson {
    pub text: Vec<u8>,
}

impl RawJson {
    /// The text of the value.
    pub fn get(&self) -> (r: &[u8])
        ensures
            r@ == self.text@,
    {
        self.text.as_slice()
    }

    /// Decodes the value.
    pub fn decode<T: FromJson>(&self) -> (r: Result<T, DecodeError>)
        ensures
            match r {
                Ok(v) => T::rejects(self.text@) is None && v.holds(self.text@),
                Err(e) => T::rejects(self.text@) == Some(e),
            },
    {
        T::from_json(self.text.as_slice())
    }
}

/// Any one JSON value decodes to its own text, the whitespace around it
/// set aside.
impl FromJson for RawJson {
    open spec fn rejects(raw: Seq<u8>) -> Option<DecodeError> {
        if document_span(raw) is Some {
            None
        } else {
            Some(DecodeError::MalformedDocument)
        }
    }

    open spec fn holds(&self, raw: Seq<u8>) -> bool {
        match document_span(raw) {
            Some(span) => self.text@ == span.of(raw),
            None => false,
        }
    }

    fn from_json(raw: &[u8]) -> (r: Result<Self, DecodeError>) {
        let span = parse_document(raw)?;
        Ok(RawJson { text: slice_to_vec(&raw[span.start..span.end]) })
    }
}

} // verus!
