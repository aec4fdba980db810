//! Texts and their pieces.

use vstd::prelude::*;
use vstd::string::{is_ascii_spec_bytes, StrSliceExecFns};
use vstd::utf8::{encode_utf8, encode_utf8_decode_utf8, is_ascii_chars};

verus! {

/// What a list of texts stands for in contracts.
pub open spec fn texts(items: Seq<&str>) -> Seq<Seq<char>> {
    Seq::new(items.len(), |i: int| items[i]@)
}

/// Whether two texts are the same, character for character.
pub fn same_text(a: &str, b: &str) -> (r: bool)
    ensures
        r == (a@ == b@),
{
    let x = a.as_bytes();
    let y = b.as_bytes();
    proof {
        encode_utf8_decode_utf8(a@);
        encode_utf8_decode_utf8(b@);
    }
    if x.len() != y.len() {
        return false;
    }
    let mut i: usize = 0;
    while i < x.len()
        invariant
            i <= x.len(),
            x@.len() == y@.len(),
            x@ == encode_utf8(a@),
            y@ == encode_utf8(b@),
            forall|k: int| 0 <= k < i ==> x@[k] == y@[k],
        decreases x.len() - i,
    {
        if x[i] != y[i] {
            return false;
        }
        i = i + 1;
    }
    assert(x@ =~= y@);
    true
}

/// The pieces of `text` between occurrences of `sep`, from the piece on
/// that began at `start` and was read up to `pos`.
pub open spec fn pieces_from(text: Seq<char>, sep: char, start: int, pos: int) -> Seq<Seq<char>>
    decreases text.len() - pos,
{
    if !(0 <= start <= pos < text.len()) {
        seq![text.subrange(start, text.len() as int)]
    } else if text[pos] == sep {
        seq![text.subrange(start, pos)] + pieces_from(text, sep, pos + 1, pos + 1)
    } else {
        pieces_from(text, sep, start, pos + 1)
    }
}

/// The pieces of `text` between occurrences of `sep`. A text without the
/// separator is one piece, and so is the empty text.
pub open spec fn pieces(text: Seq<char>, sep: char) -> Seq<Seq<char>> {
    pieces_from(text, sep, 0, 0)
}

/// Splits a text at every occurrence of `sep`.
pub fn split_at<'a>(text: &'a str, sep: char) -> (r: Vec<&'a str>)
    ensures
        texts(r@) == pieces(text@, sep),
        r@.len() >= 1,
{
    if text.is_ascii() && sep <= '\u{7f}' {
        split_ascii(text, sep)
    } else {
        split_chars(text, sep)
    }
}

/// Splits an ASCII text, in which characters and bytes are the same, in
/// one pass over its bytes.
fn split_ascii<'a>(text: &'a str, sep: char) -> (r: Vec<&'a str>)
    requires
        is_ascii_chars(text@),
        sep <= '\u{7f}',
    ensures
        texts(r@) == pieces(text@, sep),
        r@.len() >= 1,
{
    let bytes = text.as_bytes();
    proof {
        is_ascii_spec_bytes(text);
    }
    let n = bytes.len();
    let mark = sep as u8;
    let mut found: Vec<&'a str> = Vec::new();
    let mut start: usize = 0;
    let mut pos: usize = 0;
    while pos < n
        invariant
            n == text@.len(),
            n == bytes@.len(),
            is_ascii_chars(text@),
            sep <= '\u{7f}',
            mark == sep as u8,
            forall|k: int| 0 <= k < n ==> bytes@[k] == text@[k] as u8,
            start <= pos <= n,
            pieces(text@, sep) == texts(found@) + pieces_from(text@, sep, start as int, pos as int),
        decreases n - pos,
    {
        if bytes[pos] == mark {
            assert(text@[pos as int] == sep);
            let ghost before = found@;
            found.push(text.substring_ascii(start, pos));
            assert(texts(found@) =~= texts(before).push(text@.subrange(start as int, pos as int)));
            assert(texts(before) + (seq![text@.subrange(start as int, pos as int)] + pieces_from(
                text@,
                sep,
                pos + 1,
                pos + 1,
            )) =~= texts(found@) + pieces_from(text@, sep, pos + 1, pos + 1));
            start = pos + 1;
        } else {
            assert(text@[pos as int] != sep);
        }
        pos = pos + 1;
    }
    let ghost before = found@;
    found.push(text.substring_ascii(start, n));
    assert(texts(found@) =~= texts(before) + seq![text@.subrange(start as int, n as int)]);
    found
}

/// Splits any text, character by character.
fn split_chars<'a>(text: &'a str, sep: char) -> (r: Vec<&'a str>)
    ensures
        texts(r@) == pieces(text@, sep),
        r@.len() >= 1,
{
    let n = text.unicode_len();
    let mut found: Vec<&'a str> = Vec::new();
    let mut start: usize = 0;
    let mut pos: usize = 0;
    while pos < n
        invariant
            n == text@.len(),
            start <= pos <= n,
            pieces(text@, sep) == texts(found@) + pieces_from(text@, sep, start as int, pos as int),
        decreases n - pos,
    {
        if text.get_char(pos) == sep {
            let ghost before = found@;
            found.push(text.substring_char(start, pos));
            assert(texts(found@) =~= texts(before).push(text@.subrange(start as int, pos as int)));
            assert(texts(before) + (seq![text@.subrange(start as int, pos as int)] + pieces_from(
                text@,
                sep,
                pos + 1,
                pos + 1,
            )) =~= texts(found@) + pieces_from(text@, sep, pos + 1, pos + 1));
            start = pos + 1;
        }
        pos = pos + 1;
    }
    let ghost before = found@;
    found.push(text.substring_char(start, n));
    assert(texts(found@) =~= texts(before) + seq![text@.subrange(start as int, n as int)]);
    found
}

/// `s` does not hold `sep`.
pub open spec fn free_of(s: Seq<char>, sep: char) -> bool {
    forall|i: int| 0 <= i < s.len() ==> s[i] != sep
}

/// Reading on over characters that are no separators changes nothing.
proof fn lemma_scan_plain(text: Seq<char>, sep: char, start: int, pos: int, stop: int)
    requires
        0 <= start <= pos <= stop <= text.len(),
        forall|i: int| pos <= i < stop ==> text[i] != sep,
    ensures
        pieces_from(text, sep, start, pos) == pieces_from(text, sep, start, stop),
    decreases stop - pos,
{
    if pos < stop {
        lemma_scan_plain(text, sep, start, pos + 1, stop);
    }
}

/// The pieces of the rear part of a text do not depend on what stands
/// before it.
proof fn lemma_shift(a: Seq<char>, b: Seq<char>, sep: char, start: int, pos: int)
    requires
        0 <= start <= pos <= b.len(),
    ensures
        pieces_from(a + b, sep, a.len() + start, a.len() + pos) == pieces_from(b, sep, start, pos),
    decreases b.len() - pos,
{
    let text = a + b;
    if pos < b.len() {
        assert(text[a.len() + pos] == b[pos]);
        if b[pos] == sep {
            lemma_shift(a, b, sep, pos + 1, pos + 1);
            assert(text.subrange(a.len() + start, a.len() + pos) =~= b.subrange(start, pos));
        } else {
            lemma_shift(a, b, sep, start, pos + 1);
        }
    } else {
        assert(text.subrange(a.len() + start, text.len() as int) =~= b.subrange(
            start,
            b.len() as int,
        ));
    }
}

/// A text without the separator is one piece.
pub proof fn lemma_pieces_plain(text: Seq<char>, sep: char)
    requires
        free_of(text, sep),
    ensures
        pieces(text, sep) == seq![text],
{
    lemma_scan_plain(text, sep, 0, 0, text.len() as int);
    assert(text.subrange(0, text.len() as int) =~= text);
}

/// A text that begins with a piece and a separator splits into that piece
/// and the pieces of what follows the separator.
pub proof fn lemma_pieces_join(head: Seq<char>, sep: char, rest: Seq<char>)
    requires
        free_of(head, sep),
    ensures
        pieces(head + seq![sep] + rest, sep) == seq![head] + pieces(rest, sep),
{
    let prefix = head + seq![sep];
    let text = prefix + rest;
    assert forall|i: int| 0 <= i < head.len() implies text[i] != sep by {
        assert(text[i] == head[i]);
    }
    lemma_scan_plain(text, sep, 0, 0, head.len() as int);
    assert(text[head.len() as int] == sep);
    assert(text.subrange(0, head.len() as int) =~= head);
    lemma_shift(prefix, rest, sep, 0, 0);
}

} // verus!
