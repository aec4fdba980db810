//! Paths into nested JSON.
//!
//! A path is a list of segments. Each segment names a member of an
//! object, or, where the value at hand is an array, the position of an
//! element. `jsonp` takes the single steps; the walk along a path is made
//! here.

use crate::decode::FromJson;
use crate::error::DecodeError;
use crate::text::{pieces, split_at, texts};
use vstd::prelude::*;

verus! {

/// The text of the value that `segment` selects inside the JSON value
/// `raw`, as `jsonp` finds it with a lazily typed segment; `None` where it
/// finds none.
pub uninterp spec fn json_child(raw: Seq<u8>, segment: Seq<char>) -> Option<Seq<u8>>;

/// Calls `jsonp::Pointer::with_segments` with the one lazily typed segment
/// and copies the text of the raw value that it returns.
///
/// Trusted: the result is `json_child`.
#[verifier::external_body]
fn child(raw: &[u8], segment: &str) -> (r: Result<Vec<u8>, serde_json::Error>)
    ensures
        r matches Ok(v) ==> json_child(raw@, segment@) == Some(v@),
        r is Err ==> json_child(raw@, segment@) is None,
{
    let found: &serde_json::value::RawValue =
        jsonp::Pointer::default().with_segments(raw, Some(jsonp::Segment::lazy(segment)))?;
    Ok(found.get().as_bytes().to_vec())
}

/// The segments of a dotted path: the pieces between its dots. A path
/// without a dot is one segment, and so is the empty path.
pub open spec fn split_dots(path: Seq<char>) -> Seq<Seq<char>> {
    pieces(path, '.')
}

/// Splits a dotted path into its segments.
pub fn split<'a>(path: &'a str) -> (r: Vec<&'a str>)
    ensures
        texts(r@) == split_dots(path@),
        r@.len() >= 1,
{
    split_at(path, '.')
}

/// Where the walk from `raw` along the segments from `from` on ends; `None`
/// where a step finds nothing.
pub open spec fn descend(raw: Seq<u8>, segments: Seq<Seq<char>>, from: int) -> Option<Seq<u8>>
    decreases segments.len() - from,
{
    if !(0 <= from < segments.len()) {
        Some(raw)
    } else {
        match json_child(raw, segments[from]) {
            Some(inner) => descend(inner, segments, from + 1),
            None => None,
        }
    }
}

/// What the value at the end of a path decodes to: a step that finds
/// nothing is `PathNotFound`, and the value found must decode to a `T`.
pub open spec fn rejects_at<T: FromJson>(
    raw: Seq<u8>,
    segments: Seq<Seq<char>>,
    from: int,
) -> Option<DecodeError> {
    match descend(raw, segments, from) {
        Some(found) => T::rejects(found),
        None => Some(DecodeError::PathNotFound),
    }
}

/// Walks from `raw` along the segments from `from` on and decodes the
/// value at the end.
pub fn resolve<T: FromJson>(raw: &[u8], segments: &Vec<&str>, from: usize) -> (r: Result<
    T,
    DecodeError,
>)
    ensures
        match r {
            Ok(v) => descend(raw@, texts(segments@), from as int) matches Some(found) && T::rejects(
                found,
            ) is None && v.holds(found),
            Err(e) => rejects_at::<T>(raw@, texts(segments@), from as int) == Some(e),
        },
{
    if from >= segments.len() {
        return T::from_json(raw);
    }
    let mut current: Vec<u8> = match child(raw, segments[from]) {
        Ok(inner) => inner,
        Err(_) => { return Err(DecodeError::PathNotFound); },
    };
    let mut i: usize = from + 1;
    while i < segments.len()
        invariant
            from < i <= segments.len(),
            descend(raw@, texts(segments@), from as int) == descend(
                current@,
                texts(segments@),
                i as int,
            ),
        decreases segments.len() - i,
    {
        current = match child(current.as_slice(), segments[i]) {
            Ok(inner) => inner,
            Err(_) => { return Err(DecodeError::PathNotFound); },
        };
        i = i + 1;
    }
    T::from_json(current.as_slice())
}

} // verus!
