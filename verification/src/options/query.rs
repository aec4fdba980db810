//! Query parameters: which are sent, and how the query string is put
//! together.

use crate::options::cdelim::{
    comma_joined, element_texts, joined, lemma_joined_new, lemma_joined_started, new_list,
    CommaDelimited, Element, ListView,
};
use crate::text::texts;
use vstd::prelude::*;
use vstd::string::StringExecFns;
use vstd::utf8::{encode_utf8, is_ascii_chars, is_ascii_chars_encode_utf8};

verus! {

/// The bytes that stand for themselves in a query string: the ASCII
/// letters and digits, and `*`, `-`, `.` and `_`.
pub open spec fn is_unreserved(b: u8) -> bool {
    ||| 0x30 <= b <= 0x39
    ||| 0x41 <= b <= 0x5a
    ||| 0x61 <= b <= 0x7a
    ||| b == 0x2a
    ||| b == 0x2d
    ||| b == 0x2e
    ||| b == 0x5f
}

/// The digit for `n`, which is below sixteen, in base sixteen with capital
/// letters.
pub open spec fn hex_digit(n: u8) -> char {
    if n < 10 {
        (0x30 + n) as u8 as char
    } else {
        (0x41 + n - 10) as u8 as char
    }
}

/// One byte as it is written into a query string: as itself where it is
/// unreserved, a space as a plus sign, and any other as a percent sign
/// and its two digits in base sixteen.
pub open spec fn encoded_byte(b: u8) -> Seq<char> {
    if is_unreserved(b) {
        seq![b as char]
    } else if b == 0x20 {
        seq!['+']
    } else {
        seq!['%', hex_digit(b / 16), hex_digit(b % 16)]
    }
}

/// Bytes as they are written into a query string, one after the other.
pub open spec fn form_encoded(bytes: Seq<u8>) -> Seq<char>
    decreases bytes.len(),
{
    if bytes.len() == 0 {
        Seq::empty()
    } else {
        form_encoded(bytes.drop_last()) + encoded_byte(bytes.last())
    }
}

/// `text` as it is written into a query string: the bytes of its UTF-8
/// form, each encoded.
pub open spec fn url_encoded(text: Seq<char>) -> Seq<char> {
    form_encoded(encode_utf8(text))
}

/// Calls `url::form_urlencoded::byte_serialize` on the bytes of the text
/// and collects the pieces.
///
/// Trusted: every byte is written as `encoded_byte` says, in order.
#[verifier::external_body]
fn encode_component(text: &str) -> (r: String)
    ensures
        r@ == url_encoded(text@),
{
    url::form_urlencoded::byte_serialize(text.as_bytes()).collect()
}

/// A text of unreserved characters is written into a query string as it
/// is.
pub proof fn lemma_unreserved_unchanged(text: Seq<char>)
    requires
        is_ascii_chars(text),
        forall|i: int| 0 <= i < text.len() ==> is_unreserved(#[trigger] text[i] as u8),
    ensures
        url_encoded(text) == text,
{
    is_ascii_chars_encode_utf8(text);
    lemma_unreserved_bytes(encode_utf8(text), text);
}

proof fn lemma_unreserved_bytes(bytes: Seq<u8>, text: Seq<char>)
    requires
        bytes.len() == text.len(),
        is_ascii_chars(text),
        forall|i: int| 0 <= i < text.len() ==> bytes[i] == #[trigger] text[i] as u8,
        forall|i: int| 0 <= i < text.len() ==> is_unreserved(#[trigger] text[i] as u8),
    ensures
        form_encoded(bytes) == text,
    decreases bytes.len(),
{
    if bytes.len() > 0 {
        let last = text.last();
        assert(bytes.last() == last as u8);
        assert(is_unreserved(last as u8));
        assert(last as u32 <= 0x7f);
        assert((last as u8) as char == last);
        lemma_unreserved_bytes(bytes.drop_last(), text.drop_last());
        assert(text =~= text.drop_last() + seq![last]);
    } else {
        assert(text =~= Seq::<char>::empty());
    }
}

/// One parameter of a query.
#[derive(Debug, Clone)]
pub struct Param {
    pub key: &'static str,
    pub value: String,
}

/// What a parameter stands for in contracts: its key and its value.
pub struct Sent {
    pub key: Seq<char>,
    pub value: Seq<char>,
}

/// What a list of parameters stands for.
pub open spec fn params_of(params: Seq<Param>) -> Seq<Sent> {
    Seq::new(params.len(), |i: int| Sent { key: params[i].key@, value: params[i].value@ })
}

/// One parameter as it stands in a query string.
pub open spec fn pair_text(param: Sent) -> Seq<char> {
    url_encoded(param.key) + seq!['='] + url_encoded(param.value)
}

/// The first `upto` parameters as a query string: each as key, equals
/// sign and value, with an ampersand between two of them.
pub open spec fn query_text(params: Seq<Sent>, upto: int) -> Seq<char>
    decreases upto,
{
    if upto <= 0 {
        Seq::empty()
    } else if upto == 1 {
        pair_text(params[0])
    } else {
        query_text(params, upto - 1) + seq!['&'] + pair_text(params[upto - 1])
    }
}

/// Writes the parameters as one query string. Without parameters there
/// is no query string at all.
pub fn to_query(params: &Vec<Param>) -> (r: Option<String>)
    ensures
        match r {
            Some(query) => params@.len() > 0 && query@ == query_text(
                params_of(params@),
                params@.len() as int,
            ),
            None => params@.len() == 0,
        },
{
    if params.len() == 0 {
        return None;
    }
    let mut query = String::new();
    let mut i: usize = 0;
    while i < params.len()
        invariant
            i <= params.len(),
            query@ == query_text(params_of(params@), i as int),
        decreases params.len() - i,
    {
        if i > 0 {
            proof {
                reveal_strlit("&");
            }
            query.append("&");
        }
        let key = encode_component(params[i].key);
        let value = encode_component(params[i].value.as_str());
        proof {
            reveal_strlit("=");
        }
        let ghost head = query@;
        query.append(key.as_str());
        query.append("=");
        query.append(value.as_str());
        assert(query@ =~= head + pair_text(params_of(params@)[i as int]));
        i = i + 1;
    }
    Some(query)
}

/// What an optional list holds.
pub open spec fn list_text(list: Option<CommaDelimited>) -> Option<ListView> {
    match list {
        Some(list) => Some(list@),
        None => None,
    }
}

/// An optional list after values were added to it: a list that was there
/// grows, and a list that was not there comes to be with the first value.
pub open spec fn extended(list: Option<ListView>, texts: Seq<Seq<char>>) -> Option<ListView> {
    match list {
        Some(list) => Some(joined(list, texts, texts.len() as int)),
        None => if texts.len() == 0 {
            None
        } else {
            Some(joined(new_list(), texts, texts.len() as int))
        },
    }
}

/// What adding values does to an optional list. Without values nothing
/// changes: a list that was not there does not come to be. Values added
/// to a list that was not there stand in it joined with commas, and
/// values added to a list that has started stand behind its text, each
/// after a comma.
pub proof fn lemma_extended(list: Option<ListView>, texts: Seq<Seq<char>>)
    ensures
        texts.len() == 0 ==> extended(list, texts) == list,
        texts.len() > 0 ==> extended(list, texts) is Some,
        (list is None && texts.len() > 0) ==> extended(list, texts)->0.text == comma_joined(
            texts,
            texts.len() as int,
        ),
        match list {
            Some(before) => before.started && texts.len() > 0 ==> extended(list, texts)->0.text
                == before.text + seq![','] + comma_joined(texts, texts.len() as int),
            None => true,
        },
{
    if texts.len() > 0 {
        lemma_joined_new(texts, texts.len() as int);
        if let Some(before) = list {
            if before.started {
                lemma_joined_started(before, texts, texts.len() as int);
            }
        }
    }
}

/// Adds elements to an optional list.
pub fn append_delimited(list: &mut Option<CommaDelimited>, elements: &[Element])
    ensures
        list_text(*final(list)) == extended(list_text(*old(list)), element_texts(elements@)),
{
    if elements.len() == 0 {
        return ;
    }
    let mut current = match list.take() {
        Some(current) => current,
        None => CommaDelimited::new(),
    };
    current.append_elements(elements);
    *list = Some(current);
}

/// Numbers as they are written into a list.
pub open spec fn number_texts(items: Seq<u64>) -> Seq<Seq<char>> {
    Seq::new(items.len(), |i: int| crate::id::decimal(items[i] as nat))
}

/// Adds texts to an optional list.
pub fn append_texts(list: &mut Option<CommaDelimited>, items: &[&str])
    ensures
        list_text(*final(list)) == extended(list_text(*old(list)), texts(items@)),
{
    let mut elements: Vec<Element> = Vec::new();
    let mut i: usize = 0;
    while i < items.len()
        invariant
            i <= items.len(),
            elements@.len() == i,
            forall|k: int| 0 <= k < i ==> (#[trigger] elements@[k]).text() == items@[k]@,
        decreases items.len() - i,
    {
        elements.push(Element::from_str(items[i]));
        i = i + 1;
    }
    assert(element_texts(elements@) =~= texts(items@));
    append_delimited(list, elements.as_slice());
}

/// Adds numbers to an optional list.
pub fn append_numbers(list: &mut Option<CommaDelimited>, items: &[u64])
    ensures
        list_text(*final(list)) == extended(list_text(*old(list)), number_texts(items@)),
{
    let mut elements: Vec<Element> = Vec::new();
    let mut i: usize = 0;
    while i < items.len()
        invariant
            i <= items.len(),
            elements@.len() == i,
            forall|k: int|
                0 <= k < i ==> (#[trigger] elements@[k]).text() == crate::id::decimal(
                    items@[k] as nat,
                ),
        decreases items.len() - i,
    {
        elements.push(Element::from_u64(items[i]));
        i = i + 1;
    }
    assert(element_texts(elements@) =~= number_texts(items@));
    append_delimited(list, elements.as_slice());
}

/// The parameter for an optional list: none where the list is absent or
/// holds nothing.
pub open spec fn list_param(key: &'static str, list: Option<ListView>) -> Seq<Sent> {
    match list {
        Some(list) => if list.text.len() == 0 {
            Seq::empty()
        } else {
            seq![Sent { key: key@, value: list.text }]
        },
        None => Seq::empty(),
    }
}

/// The parameter for a flag: `true` where it is set, none otherwise.
pub open spec fn flag_param(key: &'static str, flag: Option<bool>) -> Seq<Sent> {
    if flag == Some(true) {
        seq![Sent { key: key@, value: "true"@ }]
    } else {
        Seq::empty()
    }
}

/// The parameter for an optional text.
pub open spec fn text_param(key: &'static str, text: Option<Seq<char>>) -> Seq<Sent> {
    match text {
        Some(text) => seq![Sent { key: key@, value: text }],
        None => Seq::empty(),
    }
}

/// The parameter for an optional number.
pub open spec fn number_param(key: &'static str, number: Option<u32>) -> Seq<Sent> {
    match number {
        Some(n) => seq![Sent { key: key@, value: crate::id::decimal(n as nat) }],
        None => Seq::empty(),
    }
}

/// Keeps a flag only where it is set.
pub fn only_true(flag: Option<bool>) -> (r: Option<bool>)
    ensures
        r == (if flag == Some(true) {
            Some(true)
        } else {
            None::<bool>
        }),
{
    match flag {
        Some(true) => Some(true),
        _ => None,
    }
}

/// Adds the parameter for an optional list.
pub fn push_list(params: &mut Vec<Param>, key: &'static str, list: &Option<CommaDelimited>)
    ensures
        params_of(final(params)@) == params_of(old(params)@) + list_param(key, list_text(*list)),
{
    match list {
        Some(list) => {
            if !list.is_empty() {
                params.push(Param { key, value: String::from_str(list.as_str()) });
            }
        },
        None => {},
    }
}

/// Adds the parameter for a flag.
pub fn push_flag(params: &mut Vec<Param>, key: &'static str, flag: Option<bool>)
    ensures
        params_of(final(params)@) == params_of(old(params)@) + flag_param(key, flag),
{
    match flag {
        Some(true) => {
            params.push(Param { key, value: String::from_str("true") });
        },
        _ => {},
    }
}

/// Adds the parameter for an optional text.
pub fn push_text(params: &mut Vec<Param>, key: &'static str, text: &Option<String>)
    ensures
        params_of(final(params)@) == params_of(old(params)@) + text_param(
            key,
            match *text {
                Some(text) => Some(text@),
                None => None,
            },
        ),
{
    match text {
        Some(text) => {
            params.push(Param { key, value: text.clone() });
        },
        None => {},
    }
    assert(params_of(params@) =~= params_of(old(params)@) + text_param(
        key,
        match *text {
            Some(text) => Some(text@),
            None => None,
        },
    ));
}

/// Adds the parameter for an optional number.
pub fn push_number(params: &mut Vec<Param>, key: &'static str, number: Option<u32>)
    ensures
        params_of(final(params)@) == params_of(old(params)@) + number_param(key, number),
{
    match number {
        Some(n) => {
            params.push(Param { key, value: crate::id::format_integer(n as i128) });
        },
        None => {},
    }
}

/// Hands out the parameters of a query one by one.
#[derive(Debug)]
pub struct Queries {
    params: Vec<Param>,
    idx: usize,
}

impl Queries {
    #[verifier::type_invariant]
    spec fn wf(self) -> bool {
        self.idx <= self.params@.len()
    }

    /// The parameters that are still to come.
    pub closed spec fn remaining(&self) -> Seq<Sent> {
        params_of(self.params@).skip(self.idx as int)
    }

    /// Starts with all of `params` to come.
    pub fn new(params: Vec<Param>) -> (r: Self)
        ensures
            r.remaining() == params_of(params@),
    {
        Queries { params, idx: 0 }
    }

    /// The next parameter, if one is left.
    pub fn next(&mut self) -> (r: Option<Param>)
        ensures
            ({
                let before = old(self).remaining();
                let after = final(self).remaining();
                match r {
                    Some(param) => before.len() > 0 && param.key@ == before[0].key && param.value@
                        == before[0].value && after == before.skip(1),
                    None => before.len() == 0 && after == before,
                }
            }),
    {
        proof {
            use_type_invariant(&*self);
        }
        if self.idx < self.params.len() {
            let param = Param {
                key: self.params[self.idx].key,
                value: self.params[self.idx].value.clone(),
            };
            self.idx = self.idx + 1;
            assert(params_of(self.params@).skip(self.idx as int) =~= params_of(self.params@).skip(
                self.idx - 1,
            ).skip(1));
            Some(param)
        } else {
            None
        }
    }
}

} // verus!
