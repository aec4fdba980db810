//! JSON objects as lists of keyed value spans.
//!
//! An object is read once into its members, keys decoded and values left
//! as spans of the text. Shapes then ask for members by name: a name that
//! a shape fixes may occur once at most, and a value is decoded only when
//! it is asked for.

use crate::decode::{first, FromJson};
use crate::error::DecodeError;
use crate::id::{wire_id, Id};
use crate::json::{
    json_value_end,
    decode_string, document_span, is_object, json_string, lemma_members_from, lemma_skip_ws_bounds,
    object_members, parse_document, parse_members, skip_ws, Member, Span,
};
use crate::text::same_text;
use vstd::prelude::*;
use vstd::string::StringExecFns;

verus! {

/// One member of an object: its decoded key, and where its value lies.
#[derive(Debug, Clone)]
pub struct Entry {
    pub key: String,
    pub value: Span,
}

/// What an `Entry` stands for in contracts.
pub struct Field {
    pub key: Seq<char>,
    pub value: Span,
}

impl View for Entry {
    type V = Field;

    open spec fn view(&self) -> Field {
        Field { key: self.key@, value: self.value }
    }
}

/// The fields that a list of entries stands for.
pub open spec fn fields_of(entries: Seq<Entry>) -> Seq<Field> {
    Seq::new(entries.len(), |i: int| entries[i]@)
}

/// The members with their keys decoded; `None` where a key literal does
/// not decode.
pub open spec fn keyed(text: Seq<u8>, members: Seq<Member>) -> Option<Seq<Field>> {
    if forall|i: int|
        0 <= i < members.len() ==> json_string((#[trigger] members[i]).key.of(text)) is Some {
        Some(
            Seq::new(
                members.len(),
                |i: int|
                    Field {
                        key: json_string(members[i].key.of(text)).unwrap(),
                        value: members[i].value,
                    },
            ),
        )
    } else {
        None
    }
}

/// The fields of the object that `span` covers.
pub open spec fn object_fields(text: Seq<u8>, span: Span) -> Result<Seq<Field>, DecodeError> {
    if !is_object(text, span) {
        Err(DecodeError::UnexpectedType(None))
    } else {
        match object_members(text, span) {
            None => Err(DecodeError::MalformedDocument),
            Some(members) => match keyed(text, members) {
                None => Err(DecodeError::MalformedDocument),
                Some(fields) => Ok(fields),
            },
        }
    }
}

/// The fields of the object that is all of `raw`.
pub open spec fn record(raw: Seq<u8>) -> Result<Seq<Field>, DecodeError> {
    match document_span(raw) {
        None => Err(DecodeError::MalformedDocument),
        Some(span) => object_fields(raw, span),
    }
}

/// Every value span of `fields` is one JSON value of `text`: a non-empty
/// range inside the text that begins where a value begins and ends where
/// `serde_json` reads that value to end.
pub open spec fn values_within(fields: Seq<Field>, text: Seq<u8>) -> bool {
    forall|i: int|
        0 <= i < fields.len() ==> {
            &&& (#[trigger] fields[i]).value.start < fields[i].value.end <= text.len()
            &&& json_value_end(text, fields[i].value.start as int) == Some(
                fields[i].value.end as int,
            )
        }
}

/// The values of an object's fields are values of the text that the
/// object was read from.
pub proof fn lemma_object_fields_within(text: Seq<u8>, span: Span)
    ensures
        object_fields(text, span) matches Ok(fields) ==> values_within(fields, text),
{
    if is_object(text, span) {
        lemma_skip_ws_bounds(text, span.start + 1);
        lemma_members_from(text, skip_ws(text, span.start + 1), span.end as int, true);
    }
}

/// Reads the object that `span` covers into entries, in document order.
pub fn parse_object(text: &[u8], span: Span) -> (r: Result<Vec<Entry>, DecodeError>)
    ensures
        match r {
            Ok(entries) => object_fields(text@, span) == Ok::<Seq<Field>, DecodeError>(
                fields_of(entries@),
            ) && values_within(fields_of(entries@), text@),
            Err(e) => object_fields(text@, span) == Err::<Seq<Field>, DecodeError>(e),
        },
{
    let members = match parse_members(text, span) {
        Ok(members) => members,
        Err(e) => { return Err(e); },
    };
    proof {
        lemma_skip_ws_bounds(text@, span.start + 1);
        lemma_members_from(text@, skip_ws(text@, span.start + 1), span.end as int, true);
        lemma_object_fields_within(text@, span);
    }
    let mut entries: Vec<Entry> = Vec::new();
    let mut i: usize = 0;
    while i < members.len()
        invariant
            i <= members.len(),
            entries@.len() == i,
            is_object(text@, span),
            object_members(text@, span) == Some(members@),
            forall|k: int|
                0 <= k < members.len() ==> (#[trigger] members[k]).key.start < members[k].key.end
                    <= text@.len(),
            forall|k: int|
                0 <= k < i ==> json_string(members[k].key.of(text@)) == Some(
                    (#[trigger] entries[k]).key@,
                ) && entries[k].value == members[k].value,
        decreases members.len() - i,
    {
        let member = members[i];
        match decode_string(&text[member.key.start..member.key.end]) {
            Ok(key) => {
                entries.push(Entry { key, value: member.value });
            },
            Err(_) => {
                return Err(DecodeError::MalformedDocument);
            },
        }
        i = i + 1;
    }
    proof {
        assert forall|k: int| 0 <= k < members@.len() implies json_string(
            (#[trigger] members@[k]).key.of(text@),
        ) is Some by {
            assert(entries[k].value == members[k].value);
        }
        assert(keyed(text@, members@).unwrap() =~= fields_of(entries@));
    }
    Ok(entries)
}

/// Reads `raw`, which must be one JSON object, into entries.
pub fn parse_record(raw: &[u8]) -> (r: Result<Vec<Entry>, DecodeError>)
    ensures
        match r {
            Ok(entries) => record(raw@) == Ok::<Seq<Field>, DecodeError>(fields_of(entries@))
                && values_within(fields_of(entries@), raw@),
            Err(e) => record(raw@) == Err::<Seq<Field>, DecodeError>(e),
        },
{
    match parse_document(raw) {
        Ok(span) => parse_object(raw, span),
        Err(e) => Err(e),
    }
}

/// How many of the first `upto` fields have the key `name`.
pub open spec fn count(fields: Seq<Field>, name: Seq<char>, upto: int) -> nat
    decreases upto,
{
    if upto <= 0 {
        0
    } else if fields[upto - 1].key == name {
        count(fields, name, upto - 1) + 1
    } else {
        count(fields, name, upto - 1)
    }
}

/// The position of the last of the first `upto` fields that has the key
/// `name`.
pub open spec fn last_upto(fields: Seq<Field>, name: Seq<char>, upto: int) -> Option<int>
    decreases upto,
{
    if upto <= 0 {
        None
    } else if fields[upto - 1].key == name {
        Some(upto - 1)
    } else {
        last_upto(fields, name, upto - 1)
    }
}

/// The value of the last field named `name`: where a key occurs more than
/// once, the last occurrence is the one that counts.
pub open spec fn last(fields: Seq<Field>, name: Seq<char>) -> Option<Span> {
    match last_upto(fields, name, fields.len() as int) {
        Some(i) => Some(fields[i].value),
        None => None,
    }
}

/// The value of the one field named `name`, for a name that may occur
/// once at most.
pub open spec fn unique(fields: Seq<Field>, name: &'static str) -> Result<
    Option<Span>,
    DecodeError,
> {
    if count(fields, name@, fields.len() as int) > 1 {
        Err(DecodeError::DuplicateField(name))
    } else {
        Ok(last(fields, name@))
    }
}

/// What `count` and `last_upto` say in terms of the fields themselves.
pub proof fn lemma_count(fields: Seq<Field>, name: Seq<char>, upto: int)
    requires
        0 <= upto <= fields.len(),
    ensures
        count(fields, name, upto) <= count(fields, name, fields.len() as int),
        count(fields, name, upto) == 0 <==> forall|i: int|
            0 <= i < upto ==> (#[trigger] fields[i]).key != name,
        count(fields, name, upto) == 0 <==> last_upto(fields, name, upto) is None,
        last_upto(fields, name, upto) matches Some(i) ==> 0 <= i < upto && fields[i].key == name
            && forall|j: int| i < j < upto ==> (#[trigger] fields[j]).key != name,
    decreases fields.len() - upto, upto,
{
    if upto < fields.len() {
        lemma_count(fields, name, upto + 1);
    }
    lemma_count_prefix(fields, name, upto);
}

proof fn lemma_count_prefix(fields: Seq<Field>, name: Seq<char>, upto: int)
    requires
        0 <= upto <= fields.len(),
    ensures
        count(fields, name, upto) == 0 <==> forall|i: int|
            0 <= i < upto ==> (#[trigger] fields[i]).key != name,
        count(fields, name, upto) == 0 <==> last_upto(fields, name, upto) is None,
        last_upto(fields, name, upto) matches Some(i) ==> 0 <= i < upto && fields[i].key == name
            && forall|j: int| i < j < upto ==> (#[trigger] fields[j]).key != name,
    decreases upto,
{
    if upto > 0 {
        lemma_count_prefix(fields, name, upto - 1);
    }
}

/// Finds the value of the last entry named `name`.
pub fn find_last(entries: &Vec<Entry>, name: &str) -> (r: Option<Span>)
    ensures
        r == last(fields_of(entries@), name@),
{
    let ghost fields = fields_of(entries@);
    let mut i: usize = entries.len();
    while i > 0
        invariant
            i <= entries.len(),
            fields == fields_of(entries@),
            last_upto(fields, name@, fields.len() as int) == last_upto(fields, name@, i as int),
        decreases i,
    {
        i = i - 1;
        if same_text(entries[i].key.as_str(), name) {
            return Some(entries[i].value);
        }
    }
    None
}

/// Finds the value of the entry named `name`, which may occur once at
/// most.
pub fn find_unique(entries: &Vec<Entry>, name: &'static str) -> (r: Result<
    Option<Span>,
    DecodeError,
>)
    ensures
        r == unique(fields_of(entries@), name),
{
    let ghost fields = fields_of(entries@);
    let mut found: Option<Span> = None;
    let mut i: usize = 0;
    while i < entries.len()
        invariant
            i <= entries.len(),
            fields == fields_of(entries@),
            count(fields, name@, i as int) <= 1,
            found is Some <==> count(fields, name@, i as int) == 1,
            found == (match last_upto(fields, name@, i as int) {
                Some(k) => Some(fields[k].value),
                None => None,
            }),
        decreases entries.len() - i,
    {
        if same_text(entries[i].key.as_str(), name) {
            if found.is_some() {
                proof {
                    lemma_count(fields, name@, i + 1);
                }
                return Err(DecodeError::DuplicateField(name));
            }
            found = Some(entries[i].value);
        }
        proof {
            lemma_count_prefix(fields, name@, i as int);
        }
        i = i + 1;
    }
    Ok(found)
}

/// A reason to reject, as it is reported for the member `name`.
pub open spec fn named(reason: Option<DecodeError>, name: &'static str) -> Option<DecodeError> {
    match reason {
        Some(e) => Some(e.at(name)),
        None => None,
    }
}

/// Why the member `name`, which the shape requires, does not give a `T`.
/// A reason that names no member names this one.
pub open spec fn required_rejects<T: FromJson>(
    text: Seq<u8>,
    fields: Seq<Field>,
    name: &'static str,
) -> Option<DecodeError> {
    match unique(fields, name) {
        Err(e) => Some(e),
        Ok(None) => Some(DecodeError::MissingRequiredField(name)),
        Ok(Some(span)) => named(T::rejects(span.of(text)), name),
    }
}

/// `v` holds what the member `name` says.
pub open spec fn required_holds<T: FromJson>(
    v: T,
    text: Seq<u8>,
    fields: Seq<Field>,
    name: &'static str,
) -> bool {
    match unique(fields, name) {
        Ok(Some(span)) => v.holds(span.of(text)),
        _ => false,
    }
}

/// Why the member `name`, which may be absent or `null`, does not give a
/// `T`.
pub open spec fn optional_rejects<T: FromJson>(
    text: Seq<u8>,
    fields: Seq<Field>,
    name: &'static str,
) -> Option<DecodeError> {
    match unique(fields, name) {
        Err(e) => Some(e),
        Ok(None) => None,
        Ok(Some(span)) => named(Option::<T>::rejects(span.of(text)), name),
    }
}

/// `v` holds what the member `name` says: nothing where it is absent or
/// `null`.
pub open spec fn optional_holds<T: FromJson>(
    v: Option<T>,
    text: Seq<u8>,
    fields: Seq<Field>,
    name: &'static str,
) -> bool {
    match unique(fields, name) {
        Ok(Some(span)) => v.holds(span.of(text)),
        Ok(None) => v is None,
        Err(_) => false,
    }
}

/// Decodes the member `name`, which the shape requires.
pub(crate) fn required<T: FromJson>(
    text: &[u8],
    entries: &Vec<Entry>,
    name: &'static str,
) -> (r: Result<T, DecodeError>)
    requires
        values_within(fields_of(entries@), text@),
    ensures
        match r {
            Ok(v) => required_rejects::<T>(text@, fields_of(entries@), name) is None
                && required_holds(v, text@, fields_of(entries@), name),
            Err(e) => required_rejects::<T>(text@, fields_of(entries@), name) == Some(e),
        },
{
    proof {
        lemma_count(fields_of(entries@), name@, entries@.len() as int);
    }
    match find_unique(entries, name) {
        Err(e) => Err(e),
        Ok(None) => Err(DecodeError::MissingRequiredField(name)),
        Ok(Some(span)) => match T::from_json(&text[span.start..span.end]) {
            Ok(v) => Ok(v),
            Err(e) => Err(e.named(name)),
        },
    }
}

/// Decodes the member `name`, which may be absent or `null`.
pub(crate) fn optional<T: FromJson>(
    text: &[u8],
    entries: &Vec<Entry>,
    name: &'static str,
) -> (r: Result<Option<T>, DecodeError>)
    requires
        values_within(fields_of(entries@), text@),
    ensures
        match r {
            Ok(v) => optional_rejects::<T>(text@, fields_of(entries@), name) is None
                && optional_holds(v, text@, fields_of(entries@), name),
            Err(e) => optional_rejects::<T>(text@, fields_of(entries@), name) == Some(e),
        },
{
    proof {
        lemma_count(fields_of(entries@), name@, entries@.len() as int);
    }
    match find_unique(entries, name) {
        Err(e) => Err(e),
        Ok(None) => Ok(None),
        Ok(Some(span)) => match Option::<T>::from_json(&text[span.start..span.end]) {
            Ok(v) => Ok(v),
            Err(e) => Err(e.named(name)),
        },
    }
}

/// The identifier in the member `name` is `id`.
pub open spec fn id_holds(id: u64, text: Seq<u8>, fields: Seq<Field>, name: &'static str) -> bool {
    match unique(fields, name) {
        Ok(Some(span)) => wire_id(span.of(text)) == Ok::<u64, DecodeError>(id),
        _ => false,
    }
}

/// Decodes the identifier in the member `name`, which the shape requires.
pub(crate) fn required_id(text: &[u8], entries: &Vec<Entry>, name: &'static str) -> (r:
    Result<u64, DecodeError>)
    requires
        values_within(fields_of(entries@), text@),
    ensures
        match r {
            Ok(id) => required_rejects::<Id>(text@, fields_of(entries@), name)
                is None && id_holds(id, text@, fields_of(entries@), name),
            Err(e) => required_rejects::<Id>(text@, fields_of(entries@), name)
                == Some(e),
        },
{
    match required::<Id>(text, entries, name) {
        Ok(id) => Ok(id.get()),
        Err(e) => Err(e),
    }
}

/// A JSON object that was read from a text: the text, and its members
/// by position. The positions always lie inside the text.
#[derive(Debug)]
pub struct Object<'a> {
    text: &'a [u8],
    entries: Vec<Entry>,
}

impl<'a> Object<'a> {
    #[verifier::type_invariant]
    spec fn wf(self) -> bool {
        values_within(fields_of(self.entries@), self.text@)
    }

    /// The text that the object was read from.
    pub closed spec fn text(&self) -> Seq<u8> {
        self.text@
    }

    /// The members of the object, in document order.
    pub closed spec fn fields(&self) -> Seq<Field> {
        fields_of(self.entries@)
    }

    /// Reads `raw`, which must be one JSON object.
    pub fn parse(raw: &'a [u8]) -> (r: Result<Self, DecodeError>)
        ensures
            match r {
                Ok(object) => record(raw@) == Ok::<Seq<Field>, DecodeError>(object.fields())
                    && object.text() == raw@,
                Err(e) => record(raw@) == Err::<Seq<Field>, DecodeError>(e),
            },
    {
        let entries = parse_record(raw)?;
        Ok(Object { text: raw, entries })
    }

    /// How many members the object has.
    pub fn len(&self) -> (r: usize)
        ensures
            r == self.fields().len(),
    {
        self.entries.len()
    }

    /// The key of the member at `index`, if there are that many members.
    pub fn key(&self, index: usize) -> (r: Option<&str>)
        ensures
            match r {
                Some(key) => index < self.fields().len() && key@ == self.fields()[index as int].key,
                None => index >= self.fields().len(),
            },
    {
        if index < self.entries.len() {
            Some(self.entries[index].key.as_str())
        } else {
            None
        }
    }

    /// The text of the value of the member at `index`, if there are that
    /// many members.
    pub fn value(&self, index: usize) -> (r: Option<&'a [u8]>)
        ensures
            match r {
                Some(value) => index < self.fields().len() && value@
                    == self.fields()[index as int].value.of(self.text()),
                None => index >= self.fields().len(),
            },
    {
        proof {
            use_type_invariant(self);
        }
        if index < self.entries.len() {
            let span = self.entries[index].value;
            assert(fields_of(self.entries@)[index as int].value == span);
            let text: &'a [u8] = self.text;
            Some(&text[span.start..span.end])
        } else {
            None
        }
    }

    /// Decodes the member `name`, which the shape requires.
    pub fn required<T: FromJson>(&self, name: &'static str) -> (r: Result<T, DecodeError>)
        ensures
            match r {
                Ok(v) => required_rejects::<T>(self.text(), self.fields(), name) is None
                    && required_holds(v, self.text(), self.fields(), name),
                Err(e) => required_rejects::<T>(self.text(), self.fields(), name) == Some(e),
            },
    {
        proof {
            use_type_invariant(self);
        }
        required(self.text, &self.entries, name)
    }

    /// Decodes the member `name`, which may be absent or `null`.
    pub fn optional<T: FromJson>(&self, name: &'static str) -> (r: Result<Option<T>, DecodeError>)
        ensures
            match r {
                Ok(v) => optional_rejects::<T>(self.text(), self.fields(), name) is None
                    && optional_holds(v, self.text(), self.fields(), name),
                Err(e) => optional_rejects::<T>(self.text(), self.fields(), name) == Some(e),
            },
    {
        proof {
            use_type_invariant(self);
        }
        optional(self.text, &self.entries, name)
    }

    /// Decodes the identifier in the member `name`, which the shape
    /// requires.
    pub fn required_id(&self, name: &'static str) -> (r: Result<u64, DecodeError>)
        ensures
            match r {
                Ok(id) => required_rejects::<Id>(self.text(), self.fields(), name) is None
                    && id_holds(id, self.text(), self.fields(), name),
                Err(e) => required_rejects::<Id>(self.text(), self.fields(), name) == Some(e),
            },
    {
        proof {
            use_type_invariant(self);
        }
        required_id(self.text, &self.entries, name)
    }
}

/// One pair of a `Table`.
#[derive(Debug, Clone)]
pub struct Pair<T> {
    pub key: String,
    pub value: T,
}

/// A JSON object read as a map from names to values of one type, kept as
/// the pairs of its source in document order. Where a name occurs more
/// than once, its last pair is the one that counts.
#[derive(Debug, Clone)]
pub struct Table<T> {
    pub pairs: Vec<Pair<T>>,
}

/// The reason to reject the first member, from `from` on, whose value
/// does not decode to a `T`.
pub open spec fn first_unfit<T: FromJson>(raw: Seq<u8>, fields: Seq<Field>, from: int) -> Option<
    DecodeError,
>
    decreases fields.len() - from,
{
    if 0 <= from < fields.len() {
        first(T::rejects(fields[from].value.of(raw)), first_unfit::<T>(raw, fields, from + 1))
    } else {
        None
    }
}

impl<T> Table<T> {
    /// The position of the last of the first `upto` pairs whose key is
    /// `name`.
    pub open spec fn position(&self, name: Seq<char>, upto: int) -> Option<int>
        decreases upto,
    {
        if upto <= 0 {
            None
        } else if self.pairs@[upto - 1].key@ == name {
            Some(upto - 1)
        } else {
            self.position(name, upto - 1)
        }
    }

    /// How many pairs the table was read from.
    pub fn len(&self) -> (r: usize)
        ensures
            r == self.pairs@.len(),
    {
        self.pairs.len()
    }

    /// Whether the table holds no pair.
    pub fn is_empty(&self) -> (r: bool)
        ensures
            r == (self.pairs@.len() == 0),
    {
        self.pairs.len() == 0
    }

    /// The value that `name` maps to.
    pub fn get(&self, name: &str) -> (r: Option<&T>)
        ensures
            match self.position(name@, self.pairs@.len() as int) {
                Some(i) => r == Some(&self.pairs@[i].value),
                None => r is None,
            },
    {
        let mut i: usize = self.pairs.len();
        while i > 0
            invariant
                i <= self.pairs@.len(),
                self.position(name@, self.pairs@.len() as int) == self.position(name@, i as int),
            decreases i,
        {
            i = i - 1;
            if same_text(self.pairs[i].key.as_str(), name) {
                return Some(&self.pairs[i].value);
            }
        }
        None
    }
}

impl<T: FromJson> FromJson for Table<T> {
    open spec fn rejects(raw: Seq<u8>) -> Option<DecodeError> {
        match record(raw) {
            Err(e) => Some(e),
            Ok(f) => first_unfit::<T>(raw, f, 0),
        }
    }

    open spec fn holds(&self, raw: Seq<u8>) -> bool {
        match record(raw) {
            Err(_) => false,
            Ok(f) => {
                &&& self.pairs@.len() == f.len()
                &&& forall|i: int|
                    0 <= i < f.len() ==> (#[trigger] self.pairs@[i]).key@ == f[i].key
                        && self.pairs@[i].value.holds(f[i].value.of(raw))
            },
        }
    }

    fn from_json(raw: &[u8]) -> (r: Result<Self, DecodeError>) {
        let object = Object::parse(raw)?;
        let ghost f = object.fields();
        let mut pairs: Vec<Pair<T>> = Vec::new();
        let mut i: usize = 0;
        while i < object.len()
            invariant
                i <= object.fields().len(),
                f == object.fields(),
                object.text() == raw@,
                record(raw@) == Ok::<Seq<Field>, DecodeError>(f),
                pairs@.len() == i,
                first_unfit::<T>(raw@, f, 0) == first_unfit::<T>(raw@, f, i as int),
                forall|k: int|
                    0 <= k < i ==> (#[trigger] pairs@[k]).key@ == f[k].key && pairs@[k].value.holds(
                        f[k].value.of(raw@),
                    ),
            decreases object.fields().len() - i,
        {
            let (key, text) = match (object.key(i), object.value(i)) {
                (Some(key), Some(text)) => (key, text),
                _ => { return Err(DecodeError::MalformedDocument); },
            };
            let value = T::from_json(text)?;
            pairs.push(Pair { key: String::from_str(key), value });
            i = i + 1;
        }
        Ok(Table { pairs })
    }
}

} // verus!
