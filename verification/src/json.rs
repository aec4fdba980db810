//! Delimiting JSON values inside a byte buffer.
//!
//! `serde_json` decides where a value ends and what a string or a number
//! decodes to. This module builds on that: it skips whitespace, checks
//! that a buffer holds exactly one value, splits objects and arrays into
//! the spans of their members, and reads the three literals `true`,
//! `false` and `null`.
//!
//! The library has to see every member of an object, in document order
//! and with repeated keys, and has to keep each value as the bytes that
//! were sent. The maps that `serde_json` decodes into keep neither, so the
//! members are walked here, one value at a time.

use crate::error::DecodeError;
use vstd::prelude::*;

verus! {

/// The space character.
pub const SPACE: u8 = 0x20;

/// The line feed character.
pub const LINE_FEED: u8 = 0x0a;

/// The horizontal tab character.
pub const TAB: u8 = 0x09;

/// The carriage return character.
pub const CARRIAGE_RETURN: u8 = 0x0d;

/// The double quote that opens and closes a string literal.
pub const QUOTE: u8 = 0x22;

/// The colon between a key and its value.
pub const COLON: u8 = 0x3a;

/// The comma between two members or two elements.
pub const COMMA: u8 = 0x2c;

/// The brace that opens an object.
pub const OPEN_BRACE: u8 = 0x7b;

/// The brace that closes an object.
pub const CLOSE_BRACE: u8 = 0x7d;

/// The bracket that opens an array.
pub const OPEN_BRACKET: u8 = 0x5b;

/// The bracket that closes an array.
pub const CLOSE_BRACKET: u8 = 0x5d;

/// A half-open range `start..end` of positions in a byte buffer.
#[derive(Clone, Copy, Debug)]
pub struct Span {
    pub start: usize,
    pub end: usize,
}

impl Span {
    /// The bytes of `text` that the span covers.
    pub open spec fn of(self, text: Seq<u8>) -> Seq<u8> {
        text.subrange(self.start as int, self.end as int)
    }
}

/// One member of a JSON object: where its key literal and its value lie.
#[derive(Clone, Copy, Debug)]
pub struct Member {
    pub key: Span,
    pub value: Span,
}

/// JSON's insignificant whitespace: space, line feed, tab, carriage return.
pub open spec fn is_ws(b: u8) -> bool {
    b == SPACE || b == LINE_FEED || b == TAB || b == CARRIAGE_RETURN
}

/// The first position at or after `pos` that holds no whitespace
/// (the length of `text` if there is none).
pub open spec fn skip_ws(text: Seq<u8>, pos: int) -> int
    decreases text.len() - pos,
{
    if 0 <= pos < text.len() && is_ws(text[pos]) {
        skip_ws(text, pos + 1)
    } else {
        pos
    }
}

/// How many bytes of `text` the first JSON value in it takes, the
/// whitespace before it counted, as `serde_json` reads it; `None` where it
/// reads no value at the start of `text`.
pub uninterp spec fn json_value_len(text: Seq<u8>) -> Option<int>;

/// Calls `serde_json`'s stream deserializer on `text` for one raw value
/// and reports how many bytes it took.
///
/// Trusted: the result is `json_value_len`, and a value that was read is
/// not empty and ends inside the text.
#[verifier::external_body]
fn value_len(text: &[u8]) -> (r: Option<usize>)
    ensures
        r matches Some(n) ==> json_value_len(text@) == Some(n as int) && 0 < n <= text.len(),
        r is None ==> json_value_len(text@) is None,
{
    let mut stream = serde_json::Deserializer::from_slice(text)
        .into_iter::<&serde_json::value::RawValue>();
    match stream.next() {
        Some(Ok(_)) => Some(stream.byte_offset()),
        _ => None,
    }
}

/// Where the JSON value that starts at `start` ends, as `serde_json`
/// reads it in what follows `start`; `None` where it reads no value there.
pub open spec fn json_value_end(text: Seq<u8>, start: int) -> Option<int> {
    match json_value_len(text.subrange(start, text.len() as int)) {
        Some(n) => Some(start + n),
        None => None,
    }
}

/// Where the JSON value that starts at `start` ends.
pub(crate) fn value_end(text: &[u8], start: usize) -> (r: Option<usize>)
    requires
        start <= text.len(),
    ensures
        r matches Some(e) ==> json_value_end(text@, start as int) == Some(e as int) && start < e
            <= text.len(),
        r is None ==> json_value_end(text@, start as int) is None,
{
    match value_len(&text[start..text.len()]) {
        Some(n) => Some(start + n),
        None => None,
    }
}

/// Skipping whitespace moves forward, stays inside the text, and ends on
/// a byte that is no whitespace.
pub proof fn lemma_skip_ws_bounds(text: Seq<u8>, pos: int)
    requires
        0 <= pos <= text.len(),
    ensures
        pos <= skip_ws(text, pos) <= text.len(),
        skip_ws(text, pos) < text.len() ==> !is_ws(text[skip_ws(text, pos)]),
    decreases text.len() - pos,
{
    if pos < text.len() && is_ws(text[pos]) {
        lemma_skip_ws_bounds(text, pos + 1);
    }
}

/// Skips whitespace from `pos` on.
pub fn skip_whitespace(text: &[u8], pos: usize) -> (r: usize)
    ensures
        r as int == skip_ws(text@, pos as int),
        pos <= r,
        pos <= text.len() ==> r <= text.len(),
{
    if pos >= text.len() {
        return pos;
    }
    let mut i: usize = pos;
    while i < text.len() && (text[i] == SPACE || text[i] == LINE_FEED || text[i] == TAB || text[i]
        == CARRIAGE_RETURN)
        invariant
            pos <= i <= text.len(),
            skip_ws(text@, pos as int) == skip_ws(text@, i as int),
        decreases text.len() - i,
    {
        i = i + 1;
    }
    i
}

/// The span of the one JSON value that `text` holds, whitespace around it
/// set aside; `None` where `text` is not exactly one value.
pub open spec fn document_span(text: Seq<u8>) -> Option<Span> {
    let start = skip_ws(text, 0);
    match json_value_end(text, start) {
        Some(end) => if start < end <= text.len() && text.len() <= usize::MAX && skip_ws(text, end)
            == text.len() {
            Some(Span { start: start as usize, end: end as usize })
        } else {
            None
        },
        None => None,
    }
}

/// Checks that `text` is one JSON value and says where it lies.
pub fn parse_document(text: &[u8]) -> (r: Result<Span, DecodeError>)
    ensures
        match r {
            Ok(span) => document_span(text@) == Some(span) && span.start < span.end <= text.len(),
            Err(e) => document_span(text@) is None && e == DecodeError::MalformedDocument,
        },
{
    let start = skip_whitespace(text, 0);
    match value_end(text, start) {
        Some(end) => {
            let rest = skip_whitespace(text, end);
            if rest == text.len() {
                Ok(Span { start, end })
            } else {
                Err(DecodeError::MalformedDocument)
            }
        },
        None => Err(DecodeError::MalformedDocument),
    }
}

/// The member whose key literal starts at `pos`, inside a container that
/// ends at `end`, together with the position of the first byte that
/// follows the member's value and the whitespace behind it.
pub open spec fn member_at(text: Seq<u8>, pos: int, end: int) -> Option<(Member, int)> {
    if 0 <= pos < end <= text.len() && end <= usize::MAX && text[pos] == QUOTE {
        match json_value_end(text, pos) {
            Some(key_end) if pos < key_end < end => {
                let colon = skip_ws(text, key_end);
                let value = skip_ws(text, colon + 1);
                if colon < end && text[colon] == COLON && value < end {
                    match json_value_end(text, value) {
                        Some(value_end) if value < value_end < end => Some(
                            (
                                Member {
                                    key: Span { start: pos as usize, end: key_end as usize },
                                    value: Span { start: value as usize, end: value_end as usize },
                                },
                                skip_ws(text, value_end),
                            ),
                        ),
                        _ => None,
                    }
                } else {
                    None
                }
            },
            _ => None,
        }
    } else {
        None
    }
}

/// The members of the object that ends at `end`, in document order, read
/// from `pos` on. `first` says that no member was read yet, which is when
/// the closing brace may follow directly.
pub open spec fn members_from(text: Seq<u8>, pos: int, end: int, first: bool) -> Option<
    Seq<Member>,
>
    decreases text.len() - pos,
    via members_from_terminates
{
    if first && 0 <= pos < end <= text.len() && text[pos] == CLOSE_BRACE {
        if pos + 1 == end {
            Some(Seq::empty())
        } else {
            None
        }
    } else {
        match member_at(text, pos, end) {
            Some((member, close)) => {
                if close < end && text[close] == COMMA {
                    match members_from(text, skip_ws(text, close + 1), end, false) {
                        Some(rest) => Some(seq![member] + rest),
                        None => None,
                    }
                } else if close + 1 == end && text[close] == CLOSE_BRACE {
                    Some(seq![member])
                } else {
                    None
                }
            },
            None => None,
        }
    }
}

#[via_fn]
proof fn members_from_terminates(text: Seq<u8>, pos: int, end: int, first: bool) {
    if let Some((member, close)) = member_at(text, pos, end) {
        lemma_member_at(text, pos, end);
        if close < end {
            lemma_skip_ws_bounds(text, close + 1);
        }
    }
}

/// A member lies behind the position it was read at, and its parts follow
/// one another inside the container.
pub proof fn lemma_member_at(text: Seq<u8>, pos: int, end: int)
    ensures
        member_at(text, pos, end) matches Some((m, close)) ==> {
            &&& 0 <= pos < end <= text.len()
            &&& m.key.start == pos
            &&& m.key.start < m.key.end <= m.value.start
            &&& m.value.start < m.value.end < end
            &&& m.value.end <= close <= text.len()
            &&& json_value_end(text, m.key.start as int) == Some(m.key.end as int)
            &&& json_value_end(text, m.value.start as int) == Some(m.value.end as int)
        },
{
    if 0 <= pos < end <= text.len() && end <= usize::MAX && text[pos] == QUOTE {
        if let Some(key_end) = json_value_end(text, pos) {
            if pos < key_end < end {
                lemma_skip_ws_bounds(text, key_end);
                let colon = skip_ws(text, key_end);
                if colon < end {
                    lemma_skip_ws_bounds(text, colon + 1);
                    let value = skip_ws(text, colon + 1);
                    if let Some(value_end) = json_value_end(text, value) {
                        if value < value_end < end {
                            lemma_skip_ws_bounds(text, value_end);
                        }
                    }
                }
            }
        }
    }
}

/// `span` starts with an opening brace.
pub open spec fn is_object(text: Seq<u8>, span: Span) -> bool {
    span.start < span.end <= text.len() && text[span.start as int] == OPEN_BRACE
}

/// The members of the object that `span` covers; `None` where the text
/// there is not an object.
pub open spec fn object_members(text: Seq<u8>, span: Span) -> Option<Seq<Member>> {
    if is_object(text, span) {
        members_from(text, skip_ws(text, span.start + 1), span.end as int, true)
    } else {
        None
    }
}

/// Reads the member at `pos`, as `member_at` describes it.
fn read_member(text: &[u8], pos: usize, end: usize) -> (r: Option<(Member, usize)>)
    requires
        pos < end <= text.len(),
    ensures
        match r {
            Some((m, close)) => member_at(text@, pos as int, end as int) == Some((m, close as int))
                && close <= text.len(),
            None => member_at(text@, pos as int, end as int) is None,
        },
{
    proof {
        lemma_member_at(text@, pos as int, end as int);
    }
    if text[pos] != QUOTE {
        return None;
    }
    let key_end = match value_end(text, pos) {
        Some(e) => e,
        None => { return None; },
    };
    if key_end >= end {
        return None;
    }
    let colon = skip_whitespace(text, key_end);
    if colon >= end || text[colon] != COLON {
        return None;
    }
    let value = skip_whitespace(text, colon + 1);
    if value >= end {
        return None;
    }
    let value_end = match value_end(text, value) {
        Some(e) => e,
        None => { return None; },
    };
    if value_end >= end {
        return None;
    }
    let close = skip_whitespace(text, value_end);
    let key = Span { start: pos, end: key_end };
    let value = Span { start: value, end: value_end };
    Some((Member { key, value }, close))
}

/// Splits the object that `span` covers into its members.
///
/// Fails with `UnexpectedType` where `span` does not start an object, and
/// with `MalformedDocument` where what follows the brace is not a list of
/// members that ends with the span.
pub fn parse_members(text: &[u8], span: Span) -> (r: Result<Vec<Member>, DecodeError>)
    ensures
        match r {
            Ok(members) => object_members(text@, span) == Some(members@),
            Err(e) => object_members(text@, span) is None && e == (if is_object(text@, span) {
                DecodeError::MalformedDocument
            } else {
                DecodeError::UnexpectedType(None)
            }),
        },
{
    if !(span.start < span.end && span.end <= text.len()) || text[span.start] != OPEN_BRACE {
        return Err(DecodeError::UnexpectedType(None));
    }
    let end = span.end;
    let mut members: Vec<Member> = Vec::new();
    let mut pos = skip_whitespace(text, span.start + 1);
    let mut first = true;
    loop
        invariant
            is_object(text@, span),
            end == span.end,
            pos <= text.len(),
            object_members(text@, span) == match members_from(
                text@,
                pos as int,
                end as int,
                first,
            ) {
                Some(rest) => Some(members@ + rest),
                None => None,
            },
            first ==> members@.len() == 0,
        decreases text.len() - pos,
    {
        if pos >= end {
            return Err(DecodeError::MalformedDocument);
        }
        if first && text[pos] == CLOSE_BRACE {
            if pos + 1 == end {
                assert(members@ + Seq::<Member>::empty() =~= members@);
                return Ok(members);
            } else {
                return Err(DecodeError::MalformedDocument);
            }
        }
        let (member, close) = match read_member(text, pos, end) {
            Some(found) => found,
            None => { return Err(DecodeError::MalformedDocument); },
        };
        proof {
            lemma_member_at(text@, pos as int, end as int);
        }
        if close < end && text[close] == COMMA {
            let ghost before = members@;
            members.push(member);
            let next = skip_whitespace(text, close + 1);
            proof {
                match members_from(text@, next as int, end as int, false) {
                    Some(rest) => {
                        assert(before + (seq![member] + rest) =~= members@ + rest);
                    },
                    None => {},
                }
            }
            pos = next;
            first = false;
        } else if close < end && close + 1 == end && text[close] == CLOSE_BRACE {
            let ghost before = members@;
            members.push(member);
            assert(before + seq![member] =~= members@);
            return Ok(members);
        } else {
            return Err(DecodeError::MalformedDocument);
        }
    }
}

/// The element that starts at `pos`, inside an array that ends at `end`,
/// together with the position of the first byte that follows it and the
/// whitespace behind it.
pub open spec fn element_at(text: Seq<u8>, pos: int, end: int) -> Option<(Span, int)> {
    if 0 <= pos < end <= text.len() && end <= usize::MAX {
        match json_value_end(text, pos) {
            Some(value_end) if pos < value_end < end => Some(
                (Span { start: pos as usize, end: value_end as usize }, skip_ws(text, value_end)),
            ),
            _ => None,
        }
    } else {
        None
    }
}

/// The elements of the array that ends at `end`, in document order, read
/// from `pos` on. `first` says that no element was read yet, which is when
/// the closing bracket may follow directly.
pub open spec fn elements_from(text: Seq<u8>, pos: int, end: int, first: bool) -> Option<
    Seq<Span>,
>
    decreases text.len() - pos,
    via elements_from_terminates
{
    if first && 0 <= pos < end <= text.len() && text[pos] == CLOSE_BRACKET {
        if pos + 1 == end {
            Some(Seq::empty())
        } else {
            None
        }
    } else {
        match element_at(text, pos, end) {
            Some((element, close)) => {
                if close < end && text[close] == COMMA {
                    match elements_from(text, skip_ws(text, close + 1), end, false) {
                        Some(rest) => Some(seq![element] + rest),
                        None => None,
                    }
                } else if close + 1 == end && text[close] == CLOSE_BRACKET {
                    Some(seq![element])
                } else {
                    None
                }
            },
            None => None,
        }
    }
}

#[via_fn]
proof fn elements_from_terminates(text: Seq<u8>, pos: int, end: int, first: bool) {
    if let Some((element, close)) = element_at(text, pos, end) {
        lemma_skip_ws_bounds(text, element.end as int);
        if close < end {
            lemma_skip_ws_bounds(text, close + 1);
        }
    }
}

/// `span` starts with an opening bracket.
pub open spec fn is_array(text: Seq<u8>, span: Span) -> bool {
    span.start < span.end <= text.len() && text[span.start as int] == OPEN_BRACKET
}

/// The elements of the array that `span` covers; `None` where the text
/// there is not an array.
pub open spec fn array_elements(text: Seq<u8>, span: Span) -> Option<Seq<Span>> {
    if is_array(text, span) {
        elements_from(text, skip_ws(text, span.start + 1), span.end as int, true)
    } else {
        None
    }
}

/// Every element of an array lies inside the array's span and is a value
/// as `serde_json` delimits it. The elements follow one another in the
/// text without overlap.
pub proof fn lemma_elements_from(text: Seq<u8>, pos: int, end: int, first: bool)
    ensures
        elements_from(text, pos, end, first) matches Some(elements) ==> {
            &&& forall|i: int|
                0 <= i < elements.len() ==> {
                    &&& pos <= (#[trigger] elements[i]).start < elements[i].end < end <= text.len()
                    &&& json_value_end(text, elements[i].start as int) == Some(
                        elements[i].end as int,
                    )
                }
            &&& forall|i: int, j: int|
                #![trigger elements[i], elements[j]]
                0 <= i < j < elements.len() ==> elements[i].end < elements[j].start
        },
    decreases text.len() - pos,
{
    if first && 0 <= pos < end <= text.len() && text[pos] == CLOSE_BRACKET {
    } else if let Some((element, close)) = element_at(text, pos, end) {
        lemma_skip_ws_bounds(text, element.end as int);
        if close < end && text[close] == COMMA {
            let next = skip_ws(text, close + 1);
            lemma_skip_ws_bounds(text, close + 1);
            lemma_elements_from(text, next, end, false);
            if let Some(rest) = elements_from(text, next, end, false) {
                let elements = seq![element] + rest;
                assert forall|i: int, j: int|
                    #![trigger elements[i], elements[j]]
                    0 <= i < j < elements.len() implies elements[i].end < elements[j].start by {
                    assert(elements[j] == rest[j - 1]);
                    if i > 0 {
                        assert(elements[i] == rest[i - 1]);
                    }
                }
            }
        }
    }
}

/// Every member of an object lies inside the object's span, key before
/// value, and both are values as `serde_json` delimits them. The members
/// follow one another in the text without overlap.
pub proof fn lemma_members_from(text: Seq<u8>, pos: int, end: int, first: bool)
    ensures
        members_from(text, pos, end, first) matches Some(members) ==> {
            &&& forall|i: int|
                0 <= i < members.len() ==> {
                    let m = #[trigger] members[i];
                    &&& pos <= m.key.start < m.key.end <= m.value.start
                    &&& m.value.start < m.value.end < end <= text.len()
                    &&& json_value_end(text, m.key.start as int) == Some(m.key.end as int)
                    &&& json_value_end(text, m.value.start as int) == Some(m.value.end as int)
                }
            &&& forall|i: int, j: int|
                #![trigger members[i], members[j]]
                0 <= i < j < members.len() ==> members[i].value.end < members[j].key.start
        },
    decreases text.len() - pos,
{
    if first && 0 <= pos < end <= text.len() && text[pos] == CLOSE_BRACE {
    } else if let Some((member, close)) = member_at(text, pos, end) {
        lemma_member_at(text, pos, end);
        if close < end && text[close] == COMMA {
            let next = skip_ws(text, close + 1);
            lemma_skip_ws_bounds(text, close + 1);
            lemma_members_from(text, next, end, false);
            if let Some(rest) = members_from(text, next, end, false) {
                let members = seq![member] + rest;
                assert forall|i: int, j: int|
                    #![trigger members[i], members[j]]
                    0 <= i < j < members.len() implies members[i].value.end
                    < members[j].key.start by {
                    assert(members[j] == rest[j - 1]);
                    if i > 0 {
                        assert(members[i] == rest[i - 1]);
                    }
                }
            }
        }
    }
}

/// Splits the array that `span` covers into its elements.
///
/// Fails with `UnexpectedType` where `span` does not start an array, and
/// with `MalformedDocument` where what follows the bracket is not a list
/// of values that ends with the span.
pub fn parse_elements(text: &[u8], span: Span) -> (r: Result<Vec<Span>, DecodeError>)
    ensures
        match r {
            Ok(elements) => array_elements(text@, span) == Some(elements@),
            Err(e) => array_elements(text@, span) is None && e == (if is_array(text@, span) {
                DecodeError::MalformedDocument
            } else {
                DecodeError::UnexpectedType(None)
            }),
        },
{
    if !(span.start < span.end && span.end <= text.len()) || text[span.start] != OPEN_BRACKET {
        return Err(DecodeError::UnexpectedType(None));
    }
    let end = span.end;
    let mut elements: Vec<Span> = Vec::new();
    let mut pos = skip_whitespace(text, span.start + 1);
    let mut first = true;
    loop
        invariant
            is_array(text@, span),
            end == span.end,
            pos <= text.len(),
            array_elements(text@, span) == match elements_from(
                text@,
                pos as int,
                end as int,
                first,
            ) {
                Some(rest) => Some(elements@ + rest),
                None => None,
            },
            first ==> elements@.len() == 0,
        decreases text.len() - pos,
    {
        if pos >= end {
            return Err(DecodeError::MalformedDocument);
        }
        if first && text[pos] == CLOSE_BRACKET {
            if pos + 1 == end {
                assert(elements@ + Seq::<Span>::empty() =~= elements@);
                return Ok(elements);
            } else {
                return Err(DecodeError::MalformedDocument);
            }
        }
        let value_end = match value_end(text, pos) {
            Some(e) => e,
            None => { return Err(DecodeError::MalformedDocument); },
        };
        if value_end >= end {
            return Err(DecodeError::MalformedDocument);
        }
        let element = Span { start: pos, end: value_end };
        let close = skip_whitespace(text, value_end);
        if close < end && text[close] == COMMA {
            let ghost before = elements@;
            elements.push(element);
            let next = skip_whitespace(text, close + 1);
            proof {
                match elements_from(text@, next as int, end as int, false) {
                    Some(rest) => {
                        assert(before + (seq![element] + rest) =~= elements@ + rest);
                    },
                    None => {},
                }
            }
            pos = next;
            first = false;
        } else if close < end && close + 1 == end && text[close] == CLOSE_BRACKET {
            let ghost before = elements@;
            elements.push(element);
            assert(before + seq![element] =~= elements@);
            return Ok(elements);
        } else {
            return Err(DecodeError::MalformedDocument);
        }
    }
}

/// The text that the JSON string literal `text` stands for, as `serde_json`
/// decodes it; `None` where `text` is not one string literal.
pub uninterp spec fn json_string(text: Seq<u8>) -> Option<Seq<char>>;

/// The number that the JSON text `text` stands for where `serde_json` reads
/// it as an unsigned 64-bit integer; `None` otherwise.
pub uninterp spec fn json_u64(text: Seq<u8>) -> Option<u64>;

/// `text` is `token`, with nothing but whitespace around it.
pub open spec fn is_token(text: Seq<u8>, token: Seq<u8>) -> bool {
    let start = skip_ws(text, 0);
    &&& start + token.len() <= text.len()
    &&& text.subrange(start, start + token.len()) == token
    &&& skip_ws(text, start + token.len()) == text.len()
}

/// The bytes of the literal `true`.
pub open spec fn true_token() -> Seq<u8> {
    seq![0x74u8, 0x72u8, 0x75u8, 0x65u8]
}

/// The bytes of the literal `false`.
pub open spec fn false_token() -> Seq<u8> {
    seq![0x66u8, 0x61u8, 0x6cu8, 0x73u8, 0x65u8]
}

/// The bytes of the literal `null`.
pub open spec fn null_token() -> Seq<u8> {
    seq![0x6eu8, 0x75u8, 0x6cu8, 0x6cu8]
}

/// The truth value that the JSON text `text` stands for: that of the
/// literal `true` or `false` with nothing but whitespace around it.
pub open spec fn json_bool(text: Seq<u8>) -> Option<bool> {
    if is_token(text, true_token()) {
        Some(true)
    } else if is_token(text, false_token()) {
        Some(false)
    } else {
        None
    }
}

/// Whether the JSON text `text` is the literal `null` with nothing but
/// whitespace around it.
pub open spec fn json_null(text: Seq<u8>) -> bool {
    is_token(text, null_token())
}

/// The error of `serde_json`. Nothing of it is read: every failure of one
/// call means the same to the library.
#[verifier::external_type_specification]
#[verifier::external_body]
pub struct ExJsonError(serde_json::Error);

/// Calls `serde_json::from_slice` for a `String`.
///
/// Trusted: the call succeeds where `json_string` is defined, with that
/// text.
#[verifier::external_body]
pub(crate) fn decode_string(raw: &[u8]) -> (r: Result<String, serde_json::Error>)
    ensures
        r matches Ok(s) ==> json_string(raw@) == Some(s@),
        r is Err ==> json_string(raw@) is None,
{
    serde_json::from_slice::<String>(raw)
}

/// Calls `serde_json::from_slice` for a `u64`.
///
/// Trusted: the call succeeds where `json_u64` is defined, with that
/// number.
#[verifier::external_body]
pub(crate) fn decode_u64(raw: &[u8]) -> (r: Result<u64, serde_json::Error>)
    ensures
        r matches Ok(n) ==> json_u64(raw@) == Some(n),
        r is Err ==> json_u64(raw@) is None,
{
    serde_json::from_slice::<u64>(raw)
}

/// Whether `text` is `token` with nothing but whitespace around it.
fn reads_token(text: &[u8], token: &[u8]) -> (r: bool)
    ensures
        r == is_token(text@, token@),
{
    let start = skip_whitespace(text, 0);
    if token.len() > text.len() - start {
        return false;
    }
    let mut i: usize = 0;
    while i < token.len()
        invariant
            i <= token.len(),
            start + token.len() <= text.len(),
            start as int == skip_ws(text@, 0),
            forall|k: int| 0 <= k < i ==> text@[start + k] == token@[k],
        decreases token.len() - i,
    {
        if text[start + i] != token[i] {
            assert(text@.subrange(start as int, start + token.len())[i as int] != token@[i as int]);
            return false;
        }
        i = i + 1;
    }
    assert(text@.subrange(start as int, start + token.len()) =~= token@);
    skip_whitespace(text, start + token.len()) == text.len()
}

/// Reads a truth value: the literal `true` or `false`, with nothing but
/// whitespace around it.
pub fn decode_bool(raw: &[u8]) -> (r: Option<bool>)
    ensures
        r == json_bool(raw@),
{
    let yes: [u8; 4] = [0x74, 0x72, 0x75, 0x65];
    let no: [u8; 5] = [0x66, 0x61, 0x6c, 0x73, 0x65];
    assert(yes@ =~= true_token());
    assert(no@ =~= false_token());
    if reads_token(raw, yes.as_slice()) {
        Some(true)
    } else if reads_token(raw, no.as_slice()) {
        Some(false)
    } else {
        None
    }
}

/// Whether the text is the literal `null`, with nothing but whitespace
/// around it.
pub fn decode_null(raw: &[u8]) -> (r: bool)
    ensures
        r == json_null(raw@),
{
    let null: [u8; 4] = [0x6e, 0x75, 0x6c, 0x6c];
    assert(null@ =~= null_token());
    reads_token(raw, null.as_slice())
}

} // verus!
