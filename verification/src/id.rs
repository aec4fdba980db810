//! The identifier codec.
//!
//! An object identifier travels as a JSON string of decimal digits and is
//! held as a `u64`. Reading also accepts a bare unsigned JSON number;
//! writing always gives the string of digits.

use crate::error::DecodeError;
use crate::json::{decode_string, decode_u64, json_string, json_u64};
use vstd::prelude::*;
use vstd::string::is_ascii_spec_bytes;
use vstd::utf8::is_ascii_chars;

verus! {

/// `c` is one of the ten ASCII digits.
pub open spec fn is_digit(c: char) -> bool {
    '0' <= c <= '9'
}

/// Every character of `s` is an ASCII digit.
pub open spec fn all_digits(s: Seq<char>) -> bool {
    forall|i: int| 0 <= i < s.len() ==> is_digit(#[trigger] s[i])
}

/// The number that a run of ASCII digits denotes in base ten.
pub open spec fn digits_value(s: Seq<char>) -> nat
    decreases s.len(),
{
    if s.len() == 0 {
        0
    } else {
        digits_value(s.drop_last()) * 10 + (s.last() as u32 - 0x30) as nat
    }
}

/// The ASCII digit for `d`, which is below ten.
pub open spec fn digit_char(d: nat) -> char {
    (0x30 + d) as u8 as char
}

/// `n` written in base ten, without sign or leading zeros.
pub open spec fn decimal(n: nat) -> Seq<char>
    decreases n,
{
    if n < 10 {
        seq![digit_char(n)]
    } else {
        decimal(n / 10).push(digit_char(n % 10))
    }
}

/// What a string form of an identifier decodes to: its value where it is
/// a non-empty run of ASCII digits that fits in 64 bits.
pub open spec fn text_id(s: Seq<char>) -> Result<u64, DecodeError> {
    if s.len() > 0 && all_digits(s) && digits_value(s) <= u64::MAX {
        Ok(digits_value(s) as u64)
    } else {
        Err(DecodeError::InvalidIdentifier(None))
    }
}

/// What a JSON value decodes to as an identifier: a string goes by its
/// digits, anything else must be an unsigned number.
pub open spec fn wire_id(raw: Seq<u8>) -> Result<u64, DecodeError> {
    match json_string(raw) {
        Some(s) => text_id(s),
        None => match json_u64(raw) {
            Some(n) => Ok(n),
            None => Err(DecodeError::InvalidIdentifier(None)),
        },
    }
}

/// `n` written in base ten: a minus sign where it is negative, then the
/// digits of its absolute value.
pub open spec fn signed_decimal(n: int) -> Seq<char> {
    if n < 0 {
        seq!['-'] + decimal((-n) as nat)
    } else {
        decimal(n as nat)
    }
}

/// Calls `itoa::Buffer::format` and copies the text out of the buffer.
///
/// Trusted: the text is `n` in base ten, with a minus sign where `n` is
/// negative, and without leading zeros.
#[verifier::external_body]
pub(crate) fn format_integer(n: i128) -> (r: String)
    ensures
        r@ == signed_decimal(n as int),
{
    itoa::Buffer::new().format(n).to_owned()
}

/// A run of digits is worth at least as much as any of its prefixes.
proof fn lemma_prefix_value(s: Seq<char>, k: int)
    requires
        0 <= k <= s.len(),
    ensures
        digits_value(s.take(k)) <= digits_value(s),
    decreases s.len() - k,
{
    if k == s.len() {
        assert(s.take(k) =~= s);
    } else {
        lemma_prefix_value(s, k + 1);
        assert(s.take(k + 1).drop_last() =~= s.take(k));
    }
}

/// Writing a number and reading the text back gives the number.
proof fn lemma_decimal(n: nat)
    ensures
        decimal(n).len() > 0,
        all_digits(decimal(n)),
        digits_value(decimal(n)) == n,
    decreases n,
{
    if n < 10 {
        let s = seq![digit_char(n)];
        assert(digits_value(s.drop_last()) == 0);
    } else {
        lemma_decimal(n / 10);
        let head = decimal(n / 10);
        let s = head.push(digit_char(n % 10));
        assert(s.drop_last() =~= head);
    }
}

/// For every identifier, the text that `serialize` writes is a text that
/// decodes, and it decodes to the same identifier.
pub proof fn lemma_round_trip(id: u64)
    ensures
        text_id(decimal(id as nat)) == Ok::<u64, DecodeError>(id),
{
    lemma_decimal(id as nat);
}

/// An object identifier.
#[derive(Debug, Clone, Copy)]
pub struct Id {
    id: u64,
}

impl Id {
    /// The number that the identifier holds.
    pub closed spec fn value(self) -> u64 {
        self.id
    }

    /// The identifier with this number.
    pub fn new(id: u64) -> (r: Self)
        ensures
            r.value() == id,
    {
        Self { id }
    }

    /// The identifier as a number.
    pub fn get(&self) -> (r: u64)
        ensures
            r == self.value(),
    {
        self.id
    }

    /// Takes an identifier that arrived as a bare number.
    pub fn visit_u64(id: u64) -> (r: Result<Self, DecodeError>)
        ensures
            r matches Ok(v) && v.value() == id,
    {
        Ok(Id::new(id))
    }

    /// Takes an identifier that arrived as text: a non-empty run of ASCII
    /// digits whose value fits in 64 bits, and nothing else.
    pub fn visit_str(id: &str) -> (r: Result<Self, DecodeError>)
        ensures
            match r {
                Ok(v) => text_id(id@) == Ok::<u64, DecodeError>(v.value()),
                Err(e) => text_id(id@) == Err::<u64, DecodeError>(e),
            },
    {
        match parse_digits(id) {
            Ok(n) => Ok(Id::new(n)),
            Err(e) => Err(e),
        }
    }
}

impl From<u64> for Id {
    fn from(n: u64) -> (r: Self) {
        Id::new(n)
    }
}

impl vstd::std_specs::convert::FromSpecImpl<u64> for Id {
    open spec fn obeys_from_spec() -> bool {
        true
    }

    closed spec fn from_spec(n: u64) -> Self {
        Id { id: n }
    }
}

/// The identifier made from a number holds that number.
pub proof fn lemma_from_number(n: u64)
    ensures
        <Id as vstd::std_specs::convert::FromSpec<u64>>::from_spec(n).value() == n,
{
}

impl From<Id> for u64 {
    fn from(id: Id) -> (r: u64) {
        id.get()
    }
}

impl vstd::std_specs::convert::FromSpecImpl<Id> for u64 {
    open spec fn obeys_from_spec() -> bool {
        true
    }

    open spec fn from_spec(id: Id) -> u64 {
        id.value()
    }
}

/// Reads a run of ASCII digits as a number.
fn parse_digits(text: &str) -> (r: Result<u64, DecodeError>)
    ensures
        r == text_id(text@),
{
    if !text.is_ascii() {
        return Err(DecodeError::InvalidIdentifier(None));
    }
    let bytes = text.as_bytes();
    proof {
        is_ascii_spec_bytes(text);
    }
    if bytes.len() == 0 {
        return Err(DecodeError::InvalidIdentifier(None));
    }
    let mut acc: u64 = 0;
    let mut i: usize = 0;
    while i < bytes.len()
        invariant
            i <= bytes.len(),
            bytes@.len() == text@.len(),
            forall|k: int| 0 <= k < text@.len() ==> bytes@[k] == text@[k] as u8,
            is_ascii_chars(text@),
            all_digits(text@.take(i as int)),
            acc == digits_value(text@.take(i as int)),
        decreases bytes.len() - i,
    {
        let b = bytes[i];
        if b < 0x30 || b > 0x39 {
            return Err(DecodeError::InvalidIdentifier(None));
        }
        let d: u64 = (b - 0x30) as u64;
        proof {
            let t = text@.take(i + 1);
            assert(t.drop_last() =~= text@.take(i as int));
            assert(all_digits(t));
            lemma_prefix_value(text@, i + 1);
        }
        if acc > (u64::MAX - d) / 10 {
            return Err(DecodeError::InvalidIdentifier(None));
        }
        acc = acc * 10 + d;
        i = i + 1;
    }
    proof {
        assert(text@.take(i as int) =~= text@);
    }
    Ok(acc)
}

/// Writes an identifier in its wire form: the decimal digits that go
/// between the quotes of a JSON string, never a bare number.
pub fn serialize(id: u64) -> (r: String)
    ensures
        r@ == decimal(id as nat),
        text_id(r@) == Ok::<u64, DecodeError>(id),
{
    proof {
        lemma_round_trip(id);
    }
    format_integer(id as i128)
}

/// Reads an identifier from the text of one JSON value: a string of
/// digits, or an unsigned number.
pub fn deserialize(raw: &[u8]) -> (r: Result<u64, DecodeError>)
    ensures
        r == wire_id(raw@),
{
    match decode_string(raw) {
        Ok(text) => parse_digits(text.as_str()),
        Err(_) => match decode_u64(raw) {
            Ok(n) => Ok(n),
            Err(_) => Err(DecodeError::InvalidIdentifier(None)),
        },
    }
}

} // verus!
