//! Values joined by commas, as the tracker takes them in one query
//! parameter.

use crate::id::{format_integer, signed_decimal};
use smol_str::SmolStr;
use vstd::prelude::*;
use vstd::string::StringExecFns;

verus! {

/// The small string of `smol_str`, carried as it is: what it holds is
/// known only through `smol_text`.
#[verifier::external_type_specification]
#[verifier::external_body]
pub struct ExSmolStr(SmolStr);

/// The text that a `SmolStr` holds.
pub uninterp spec fn smol_text(s: SmolStr) -> Seq<char>;

/// Calls `SmolStr::new`.
///
/// Trusted: the new value holds the text it was made from.
#[verifier::external_body]
pub(crate) fn smol_new(text: &str) -> (r: SmolStr)
    ensures
        smol_text(r) == text@,
{
    SmolStr::new(text)
}

/// Calls `SmolStr::as_str`.
///
/// Trusted: the slice is the text that the value holds.
#[verifier::external_body]
pub(crate) fn smol_as_str(s: &SmolStr) -> (r: &str)
    ensures
        r@ == smol_text(*s),
{
    s.as_str()
}

/// `SmolStr`'s `Clone`.
///
/// Trusted: the clone holds the same text.
pub assume_specification[ <SmolStr as Clone>::clone ](s: &SmolStr) -> (r: SmolStr)
    ensures
        smol_text(r) == smol_text(*s),
;

/// A whole number, kept as it was given: unsigned, or signed.
#[derive(Debug, Clone, Copy)]
pub enum Number {
    Positive(u64),
    Negative(i64),
}

impl Number {
    /// The number itself.
    pub open spec fn value(self) -> int {
        match self {
            Number::Positive(n) => n as int,
            Number::Negative(n) => n as int,
        }
    }

    /// The number in base ten.
    pub fn to_text(&self) -> (r: String)
        ensures
            r@ == signed_decimal(self.value()),
    {
        match self {
            Number::Positive(n) => format_integer(*n as i128),
            Number::Negative(n) => format_integer(*n as i128),
        }
    }
}

impl Default for Number {
    fn default() -> (r: Self)
        ensures
            r == Number::Positive(0),
    {
        Number::Positive(0)
    }
}

/// One value of a comma-delimited list.
#[derive(Debug, Clone)]
pub enum Element {
    Text(SmolStr),
    Number(Number),
    Boolean(bool),
}

impl Element {
    /// How the element is written into a list.
    pub open spec fn text(self) -> Seq<char> {
        match self {
            Element::Text(s) => smol_text(s),
            Element::Number(n) => signed_decimal(n.value()),
            Element::Boolean(b) => if b {
                "true"@
            } else {
                "false"@
            },
        }
    }

    /// An element that is a text.
    pub fn from_str(text: &str) -> (r: Self)
        ensures
            r.text() == text@,
    {
        Element::Text(smol_new(text))
    }

    /// An element that is an unsigned number.
    pub fn from_u64(n: u64) -> (r: Self)
        ensures
            r == Element::Number(Number::Positive(n)),
    {
        Element::Number(Number::Positive(n))
    }

    /// An element that is a signed number.
    pub fn from_i64(n: i64) -> (r: Self)
        ensures
            r == Element::Number(Number::Negative(n)),
    {
        Element::Number(Number::Negative(n))
    }

    /// An element that is a truth value.
    pub fn from_bool(b: bool) -> (r: Self)
        ensures
            r == Element::Boolean(b),
    {
        Element::Boolean(b)
    }

    /// How the element is written into a list.
    pub fn to_text(&self) -> (r: String)
        ensures
            r@ == self.text(),
    {
        match self {
            Element::Text(s) => String::from_str(smol_as_str(s)),
            Element::Number(n) => n.to_text(),
            Element::Boolean(b) => if *b {
                String::from_str("true")
            } else {
                String::from_str("false")
            },
        }
    }
}

/// What a list holds: the text written so far, and whether any value was
/// written into it. A list into which only the empty text was written has
/// no text and is yet no new list.
pub struct ListView {
    pub text: Seq<char>,
    pub started: bool,
}

/// The list into which nothing was written.
pub open spec fn new_list() -> ListView {
    ListView { text: Seq::empty(), started: false }
}

/// A list with one more value written behind it: a comma stands before
/// every value but the first.
pub open spec fn appended(list: ListView, text: Seq<char>) -> ListView {
    ListView {
        text: if list.started {
            list.text + seq![','] + text
        } else {
            text
        },
        started: true,
    }
}

/// A list with the first `upto` of `texts` written behind it, one by one.
pub open spec fn joined(list: ListView, texts: Seq<Seq<char>>, upto: int) -> ListView
    decreases upto,
{
    if upto <= 0 {
        list
    } else {
        appended(joined(list, texts, upto - 1), texts[upto - 1])
    }
}

/// The first `upto` of `texts` joined with commas: one comma between every
/// two of them, whatever they hold.
pub open spec fn comma_joined(texts: Seq<Seq<char>>, upto: int) -> Seq<char>
    decreases upto,
{
    if upto <= 0 {
        Seq::empty()
    } else if upto == 1 {
        texts[0]
    } else {
        comma_joined(texts, upto - 1) + seq![','] + texts[upto - 1]
    }
}

/// Values written into a new list stand in it joined with commas, and the
/// list has started as soon as there is one value.
pub proof fn lemma_joined_new(texts: Seq<Seq<char>>, upto: int)
    requires
        0 <= upto <= texts.len(),
    ensures
        joined(new_list(), texts, upto).text == comma_joined(texts, upto),
        joined(new_list(), texts, upto).started == (upto > 0),
    decreases upto,
{
    if upto > 0 {
        lemma_joined_new(texts, upto - 1);
    }
}

/// Values written into a list that has started stand behind its text,
/// each after a comma.
pub proof fn lemma_joined_started(list: ListView, texts: Seq<Seq<char>>, upto: int)
    requires
        list.started,
        0 < upto <= texts.len(),
    ensures
        joined(list, texts, upto).text == list.text + seq![','] + comma_joined(texts, upto),
        joined(list, texts, upto).started,
    decreases upto,
{
    let before = joined(list, texts, upto - 1);
    assert(joined(list, texts, upto) == appended(before, texts[upto - 1]));
    if upto > 1 {
        lemma_joined_started(list, texts, upto - 1);
        let rest = comma_joined(texts, upto - 1) + seq![','] + texts[upto - 1];
        assert(before.text + seq![','] + texts[upto - 1] =~= list.text + seq![','] + rest);
    } else {
        assert(before == list);
    }
}

/// How elements are written into a list.
pub open spec fn element_texts(elements: Seq<Element>) -> Seq<Seq<char>> {
    Seq::new(elements.len(), |i: int| elements[i].text())
}

/// A list of values, written one behind the other with a comma between
/// every two of them.
#[derive(Debug, Default, Clone, PartialEq, Eq, PartialOrd, Ord)]
pub struct CommaDelimited {
    buffer: String,
    started: bool,
}

impl View for CommaDelimited {
    type V = ListView;

    closed spec fn view(&self) -> ListView {
        ListView { text: self.buffer@, started: self.started }
    }
}

impl CommaDelimited {
    /// The list into which nothing was written.
    pub fn new() -> (r: Self)
        ensures
            r@ == new_list(),
    {
        CommaDelimited { buffer: String::new(), started: false }
    }

    /// The list as it goes into a query.
    pub fn as_str(&self) -> (r: &str)
        ensures
            r@ == self@.text,
    {
        self.buffer.as_str()
    }

    /// Whether the list holds no text: nothing was written into it, or
    /// nothing but one empty text.
    pub fn is_empty(&self) -> (r: bool)
        ensures
            r == (self@.text.len() == 0),
    {
        self.buffer.as_str().is_empty()
    }

    /// Writes one element behind the list.
    pub fn append(&mut self, elem: &Element)
        ensures
            final(self)@ == appended(old(self)@, elem.text()),
    {
        self.write_delimited(elem)
    }

    /// Writes the elements behind the list, in their order.
    pub fn append_elements(&mut self, elements: &[Element])
        ensures
            final(self)@ == joined(
                old(self)@,
                element_texts(elements@),
                elements@.len() as int,
            ),
    {
        let mut i: usize = 0;
        while i < elements.len()
            invariant
                i <= elements.len(),
                self@ == joined(old(self)@, element_texts(elements@), i as int),
            decreases elements.len() - i,
        {
            self.append(&elements[i]);
            i = i + 1;
        }
    }

    /// Runs `f` on the list and gives the list back.
    pub fn with<F>(self, f: F) -> (r: Self) where F: FnOnce(&mut Self)
        requires
            forall|list: &mut Self| *list == self ==> call_requires(f, (list,)),
        ensures
            exists|list: &mut Self|
                *list == self && call_ensures(f, (list,), ()) && *final(list) == r,
    {
        let mut this = self;
        f(&mut this);
        this
    }

    /// The list that holds one element.
    pub fn from_element(elem: Element) -> (r: Self)
        ensures
            r@ == appended(new_list(), elem.text()),
            r@.text == elem.text(),
    {
        let mut list = CommaDelimited::new();
        list.append(&elem);
        list
    }

    /// The list of the elements, in their order, joined with commas.
    pub fn from_elements(elements: &[Element]) -> (r: Self)
        ensures
            r@ == joined(new_list(), element_texts(elements@), elements@.len() as int),
            r@.text == comma_joined(element_texts(elements@), elements@.len() as int),
    {
        let mut list = CommaDelimited::new();
        list.append_elements(elements);
        proof {
            lemma_joined_new(element_texts(elements@), elements@.len() as int);
        }
        list
    }

    fn write_delimited(&mut self, e: &Element)
        ensures
            final(self)@ == appended(old(self)@, e.text()),
    {
        let text = e.to_text();
        if self.started {
            proof {
                reveal_strlit(",");
            }
            self.buffer.append(",");
            self.buffer.append(text.as_str());
            assert(self.buffer@ =~= old(self).buffer@ + seq![','] + text@);
        } else {
            self.buffer = text;
            self.started = true;
        }
    }
}

/// Whether an optional list has nothing to send.
pub fn none_or_empty(o: &Option<CommaDelimited>) -> (r: bool)
    ensures
        r == match *o {
            Some(list) => list@.text.len() == 0,
            None => true,
        },
{
    match o {
        Some(c) => c.is_empty(),
        None => true,
    }
}

} // verus!
