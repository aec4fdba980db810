//! A single issue: a few typed scalars, and two maps of raw values that
//! are decoded on demand.

use crate::decode::{FromJson, Reasons};
use crate::error::DecodeError;
use crate::id::{wire_id, Id};
use crate::json::{document_span, json_value_end, Span};
use crate::models::common::{
    Attachment, Comment, IssueLink, IssueType, Priority, Project, Resolution, Status, User, Version,
};
use crate::object::{
    count, fields_of, find_last, find_unique, id_holds, last, last_upto, lemma_count, object_fields,
    parse_object, parse_record, record, required, required_holds, required_id, required_rejects,
    unique, values_within, Entry, Field,
};
use crate::pointer::{descend, rejects_at, resolve, split, split_dots};
use crate::text::{free_of, lemma_pieces_join, lemma_pieces_plain, same_text, texts};
use vstd::prelude::*;
use vstd::slice::slice_to_vec;

verus! {

/// `key` is one of the member names that the shape of an issue fixes.
pub open spec fn is_fixed(key: Seq<char>) -> bool {
    key == "self"@ || key == "id"@ || key == "key"@ || key == "expand"@ || key == "fields"@
}

/// Those of the first `upto` fields whose name the shape does not fix,
/// in document order.
pub open spec fn unfixed(fields: Seq<Field>, upto: int) -> Seq<Field>
    decreases upto,
{
    if upto <= 0 {
        Seq::empty()
    } else if is_fixed(fields[upto - 1].key) {
        unfixed(fields, upto - 1)
    } else {
        unfixed(fields, upto - 1).push(fields[upto - 1])
    }
}

/// Why the member `fields` does not give a map of fields.
pub open spec fn fields_rejects(raw: Seq<u8>, f: Seq<Field>) -> Option<DecodeError> {
    match unique(f, "fields") {
        Err(e) => Some(e),
        Ok(None) => Some(DecodeError::MissingRequiredField("fields")),
        Ok(Some(span)) => match object_fields(raw, span) {
            Err(e) => Some(e.at("fields")),
            Ok(_) => None,
        },
    }
}

/// `span` covers one JSON value of `text`: it begins where a value begins
/// and ends where `serde_json` reads that value to end.
pub open spec fn is_value(text: Seq<u8>, span: Span) -> bool {
    &&& span.start < span.end <= text.len()
    &&& json_value_end(text, span.start as int) == Some(span.end as int)
}

/// The backing text of an issue together with the positions of the raw
/// values in it: the members of its `fields` object, and the members of
/// the document that the shape does not name.
///
/// Every position covers one JSON value of the text, and neither the
/// text nor the positions can be changed once the document is made.
#[derive(Debug)]
pub struct Document {
    text: Vec<u8>,
    fields: Vec<Entry>,
    extra: Vec<Entry>,
}

impl Document {
    #[verifier::type_invariant]
    spec fn wf(self) -> bool {
        &&& values_within(fields_of(self.fields@), self.text@)
        &&& values_within(fields_of(self.extra@), self.text@)
    }

    /// The backing text.
    pub closed spec fn text(&self) -> Seq<u8> {
        self.text@
    }

    /// The members of the `fields` object.
    pub closed spec fn fields(&self) -> Seq<Field> {
        fields_of(self.fields@)
    }

    /// The members that the shape does not name.
    pub closed spec fn extra(&self) -> Seq<Field> {
        fields_of(self.extra@)
    }

    /// The backing text.
    pub fn raw(&self) -> (r: &[u8])
        ensures
            r@ == self.text(),
    {
        self.text.as_slice()
    }

    /// Gives the backing text back.
    pub fn into_raw(self) -> (r: Vec<u8>)
        ensures
            r@ == self.text(),
    {
        self.text
    }

    /// The raw text of the member `name` of the `fields` object; where the
    /// name occurs more than once, of its last occurrence.
    pub fn field(&self, name: &str) -> (r: Option<&[u8]>)
        ensures
            match last(self.fields(), name@) {
                Some(span) => r matches Some(raw) && raw@ == span.of(self.text()) && is_value(
                    self.text(),
                    span,
                ),
                None => r is None,
            },
    {
        proof {
            use_type_invariant(self);
            lemma_count(fields_of(self.fields@), name@, self.fields@.len() as int);
        }
        match find_last(&self.fields, name) {
            Some(span) => Some(&self.text.as_slice()[span.start..span.end]),
            None => None,
        }
    }

    /// The raw text of the member `name` among those that the shape does
    /// not name; where the name occurs more than once, of its last
    /// occurrence.
    pub fn other(&self, name: &str) -> (r: Option<&[u8]>)
        ensures
            match last(self.extra(), name@) {
                Some(span) => r matches Some(raw) && raw@ == span.of(self.text()) && is_value(
                    self.text(),
                    span,
                ),
                None => r is None,
            },
    {
        proof {
            use_type_invariant(self);
            lemma_count(fields_of(self.extra@), name@, self.extra@.len() as int);
        }
        match find_last(&self.extra, name) {
            Some(span) => Some(&self.text.as_slice()[span.start..span.end]),
            None => None,
        }
    }
}

/// The answer to a request for one issue: the text of the response, and
/// the `Issue` that was read from it.
///
/// The issue holds the text itself. Its four scalars are decoded into
/// values of their own; every other value stays in the text and is held
/// by its position there. The text cannot be changed while the handle
/// lives. A caller borrows the issue, or gives the handle up to get the
/// text back.
#[derive(Debug)]
pub struct IssueHandle {
    issue: Issue,
}

impl IssueHandle {
    #[verifier::type_invariant]
    spec fn wf(self) -> bool {
        self.issue.holds(self.issue.doc())
    }

    /// The text that the handle owns.
    pub closed spec fn store(&self) -> Seq<u8> {
        self.issue.doc()
    }

    /// The value that `data` lends.
    pub closed spec fn view(&self) -> Issue {
        self.issue
    }

    /// Reads the response once. On any error there is no handle, and the
    /// text is dropped.
    pub fn try_new(store: Vec<u8>) -> (r: Result<Self, DecodeError>)
        ensures
            match r {
                Ok(h) => Issue::rejects(store@) is None && h.store() == store@ && h@.holds(
                    store@,
                ),
                Err(e) => Issue::rejects(store@) == Some(e),
            },
    {
        let issue = Issue::decode(store)?;
        Ok(IssueHandle { issue })
    }

    /// The decoded issue.
    pub fn data(&self) -> (r: &Issue)
        ensures
            *r == self@,
            r.holds(self.store()),
    {
        proof {
            use_type_invariant(self);
        }
        &self.issue
    }

    /// The text of the response.
    pub fn raw(&self) -> (r: &[u8])
        ensures
            r@ == self.store(),
    {
        self.issue.document.raw()
    }

    /// Ends the handle and gives back the text it was made from,
    /// unchanged.
    pub fn into_inner(self) -> (r: Vec<u8>)
        ensures
            r@ == self.store(),
    {
        self.issue.document.into_raw()
    }
}

/// One issue.
///
/// The scalars are decoded when the issue is read. Everything else stays
/// in the backing text and is decoded when a caller asks for it.
#[derive(Debug)]
pub struct Issue {
    pub self_link: String,
    pub id: u64,
    pub key: String,
    pub expand: String,
    pub document: Document,
}

impl Issue {
    /// The text that the issue was read from.
    pub open spec fn doc(&self) -> Seq<u8> {
        self.document.text()
    }

    /// The members of the document's `fields` object.
    pub open spec fn fields(&self) -> Seq<Field> {
        self.document.fields()
    }

    /// The members of the document that the shape does not name.
    pub open spec fn extra(&self) -> Seq<Field> {
        self.document.extra()
    }

    /// The raw value that a path starts from, and the segment from which
    /// the walk goes on: the reserved first segment `fields` selects a
    /// member of the `fields` object by the second segment; any other
    /// first segment selects one of the other members of the document.
    pub open spec fn located(&self, segments: Seq<Seq<char>>) -> Option<(Span, int)> {
        if segments.len() == 0 {
            None
        } else if segments[0] == "fields"@ {
            if segments.len() < 2 {
                None
            } else {
                match last(self.fields(), segments[1]) {
                    Some(span) => Some((span, 2int)),
                    None => None,
                }
            }
        } else {
            match last(self.extra(), segments[0]) {
                Some(span) => Some((span, 1int)),
                None => None,
            }
        }
    }

    /// `r` is what the path gives: nothing where its first segments name
    /// no member; else the decoded value at its end, or the reason why
    /// there is none.
    pub open spec fn gives<T: FromJson>(
        &self,
        r: Option<Result<T, DecodeError>>,
        segments: Seq<Seq<char>>,
    ) -> bool {
        match self.located(segments) {
            None => r is None,
            Some((span, from)) => match r {
                None => false,
                Some(Ok(v)) => descend(span.of(self.doc()), segments, from) matches Some(found)
                    && T::rejects(found) is None && v.holds(found),
                Some(Err(e)) => rejects_at::<T>(span.of(self.doc()), segments, from) == Some(e),
            },
        }
    }

    /// Reads an issue from a text, which becomes the issue's backing text.
    pub fn decode(doc: Vec<u8>) -> (r: Result<Issue, DecodeError>)
        ensures
            match r {
                Ok(v) => Issue::rejects(doc@) is None && v.holds(doc@),
                Err(e) => Issue::rejects(doc@) == Some(e),
            },
    {
        let raw = doc.as_slice();
        let entries = parse_record(raw)?;
        let self_link: String = required(raw, &entries, "self")?;
        let id = required_id(raw, &entries, "id")?;
        let key: String = required(raw, &entries, "key")?;
        let expand: String = required(raw, &entries, "expand")?;
        proof {
            lemma_count(fields_of(entries@), "fields"@, entries@.len() as int);
        }
        let fields = match find_unique(&entries, "fields")? {
            Some(span) => match parse_object(raw, span) {
                Ok(fields) => fields,
                Err(e) => { return Err(e.named("fields")); },
            },
            None => { return Err(DecodeError::MissingRequiredField("fields")); },
        };
        let extra = unnamed_entries(&entries);
        proof {
            lemma_unfixed_within(fields_of(entries@), entries@.len() as int, doc@);
        }
        Ok(Issue { self_link, id, key, expand, document: Document { text: doc, fields, extra } })
    }

    /// Decodes the value at the end of a path, given by its segments.
    ///
    /// The result is `None` where the path's first segments name no member
    /// at all, which is not the same as a member that is there and does
    /// not decode, or a path that leaves the document further down.
    pub fn access_with<T: FromJson>(&self, segments: &Vec<&str>) -> (r: Option<
        Result<T, DecodeError>,
    >)
        ensures
            self.gives(r, texts(segments@)),
    {
        if segments.len() == 0 {
            return None;
        }
        if same_text(segments[0], "fields") {
            if segments.len() < 2 {
                return None;
            }
            match self.document.field(segments[1]) {
                Some(raw) => Some(resolve(raw, segments, 2)),
                None => None,
            }
        } else {
            match self.document.other(segments[0]) {
                Some(raw) => Some(resolve(raw, segments, 1)),
                None => None,
            }
        }
    }

    /// Decodes the value at the end of a dotted path, such as
    /// `fields.creator.id` or the name of a member that only some
    /// installations send.
    pub fn access<T: FromJson>(&self, dotted: &str) -> (r: Option<Result<T, DecodeError>>)
        ensures
            self.gives(r, split_dots(dotted@)),
    {
        let segments = split(dotted);
        self.access_with(&segments)
    }

    /// Decodes the value at the end of a path that starts inside `fields`.
    pub fn field_with<T: FromJson>(&self, segments: &Vec<&str>) -> (r: Option<
        Result<T, DecodeError>,
    >)
        ensures
            self.gives(r, seq!["fields"@] + texts(segments@)),
    {
        let mut path: Vec<&str> = Vec::new();
        path.push("fields");
        let mut i: usize = 0;
        while i < segments.len()
            invariant
                i <= segments.len(),
                texts(path@) == seq!["fields"@] + texts(segments@).take(i as int),
            decreases segments.len() - i,
        {
            let ghost before = path@;
            path.push(segments[i]);
            assert(texts(path@) =~= texts(before).push(segments@[i as int]@));
            assert(texts(segments@).take(i + 1) =~= texts(segments@).take(i as int).push(
                segments@[i as int]@,
            ));
            assert(texts(path@) =~= seq!["fields"@] + texts(segments@).take(i + 1));
            i = i + 1;
        }
        assert(texts(segments@).take(i as int) =~= texts(segments@));
        self.access_with(&path)
    }

    /// Decodes the value at the end of a dotted path that starts inside
    /// `fields`, such as `issuelinks.0.inwardIssue.id`.
    pub fn field<T: FromJson>(&self, dotted: &str) -> (r: Option<Result<T, DecodeError>>)
        ensures
            self.gives(r, seq!["fields"@] + split_dots(dotted@)),
    {
        let segments = split(dotted);
        self.field_with(&segments)
    }

    /// `r` is the value of the member of `fields` that the dotted path
    /// names: nothing where the member is absent, and nothing where it is
    /// there and does not decode.
    pub open spec fn yields<T: FromJson>(&self, r: Option<T>, dotted: Seq<char>) -> bool {
        let segments = seq!["fields"@] + split_dots(dotted);
        match self.located(segments) {
            None => r is None,
            Some((span, from)) => match r {
                Some(v) => descend(span.of(self.doc()), segments, from) matches Some(found)
                    && T::rejects(found) is None && v.holds(found),
                None => rejects_at::<T>(span.of(self.doc()), segments, from) is Some,
            },
        }
    }

    /// Reads a member of `fields` and takes a value that does not decode
    /// for an absent one.
    fn present<T: FromJson>(&self, dotted: &str) -> (r: Option<T>)
        ensures
            self.yields(r, dotted@),
    {
        match self.field::<T>(dotted) {
            Some(Ok(value)) => Some(value),
            _ => None,
        }
    }

    /// The user that the issue is assigned to.
    pub fn assignee(&self) -> (r: Option<User>)
        ensures
            self.yields(r, "assignee"@),
    {
        self.present("assignee")
    }

    /// The user that created the issue.
    pub fn creator(&self) -> (r: Option<User>)
        ensures
            self.yields(r, "creator"@),
    {
        self.present("creator")
    }

    /// The user that reported the issue.
    pub fn reporter(&self) -> (r: Option<User>)
        ensures
            self.yields(r, "reporter"@),
    {
        self.present("reporter")
    }

    /// The summary line.
    pub fn summary(&self) -> (r: Option<String>)
        ensures
            self.yields(r, "summary"@),
    {
        self.present("summary")
    }

    /// The status.
    pub fn status(&self) -> (r: Option<Status>)
        ensures
            self.yields(r, "status"@),
    {
        self.present("status")
    }

    /// The description.
    pub fn description(&self) -> (r: Option<String>)
        ensures
            self.yields(r, "description"@),
    {
        self.present("description")
    }

    /// When the issue was last updated.
    pub fn updated(&self) -> (r: Option<String>)
        ensures
            self.yields(r, "updated"@),
    {
        self.present("updated")
    }

    /// When the issue was created.
    pub fn created(&self) -> (r: Option<String>)
        ensures
            self.yields(r, "created"@),
    {
        self.present("created")
    }

    /// When the issue was resolved.
    pub fn resolution_date(&self) -> (r: Option<String>)
        ensures
            self.yields(r, "resolutiondate"@),
    {
        self.present("resolutiondate")
    }

    /// The kind of issue.
    pub fn issue_type(&self) -> (r: Option<IssueType>)
        ensures
            self.yields(r, "issuetype"@),
    {
        self.present("issuetype")
    }

    /// The labels.
    pub fn labels(&self) -> (r: Option<Vec<String>>)
        ensures
            self.yields(r, "labels"@),
    {
        self.present("labels")
    }

    /// The versions in which the issue is fixed.
    pub fn fix_versions(&self) -> (r: Option<Vec<Version>>)
        ensures
            self.yields(r, "fixVersions"@),
    {
        self.present("fixVersions")
    }

    /// The comments, read from the member `comment`.
    pub fn comments(&self) -> (r: Option<Vec<Comment>>)
        ensures
            self.yields(r, "comment"@),
    {
        self.present("comment")
    }

    /// The priority.
    pub fn priority(&self) -> (r: Option<Priority>)
        ensures
            self.yields(r, "priority"@),
    {
        self.present("priority")
    }

    /// The links to other issues.
    pub fn issue_links(&self) -> (r: Option<Vec<IssueLink>>)
        ensures
            self.yields(r, "issuelinks"@),
    {
        self.present("issuelinks")
    }

    /// The project.
    pub fn project(&self) -> (r: Option<Project>)
        ensures
            self.yields(r, "project"@),
    {
        self.present("project")
    }

    /// The resolution, if the issue has one.
    pub fn resolution(&self) -> (r: Option<Resolution>)
        ensures
            self.yields(r, "resolution"@),
    {
        self.present("resolution")
    }

    /// The attachments.
    pub fn attachment(&self) -> (r: Option<Vec<Attachment>>)
        ensures
            self.yields(r, "attachment"@),
    {
        self.present("attachment")
    }
}

/// Copies out the entries whose name the shape of an issue does not fix.
fn unnamed_entries(entries: &Vec<Entry>) -> (r: Vec<Entry>)
    ensures
        fields_of(r@) == unfixed(fields_of(entries@), entries@.len() as int),
{
    let ghost all = fields_of(entries@);
    let mut rest: Vec<Entry> = Vec::new();
    let mut i: usize = 0;
    while i < entries.len()
        invariant
            i <= entries.len(),
            all == fields_of(entries@),
            fields_of(rest@) == unfixed(all, i as int),
        decreases entries.len() - i,
    {
        let name = entries[i].key.as_str();
        let fixed = same_text(name, "self") || same_text(name, "id") || same_text(name, "key")
            || same_text(name, "expand") || same_text(name, "fields");
        if !fixed {
            let ghost before = rest@;
            rest.push(Entry { key: entries[i].key.clone(), value: entries[i].value });
            assert(fields_of(rest@) =~= fields_of(before).push(all[i as int]));
        }
        i = i + 1;
    }
    rest
}

/// The members that are left when the fixed ones are set aside lie where
/// the members of the document lie.
proof fn lemma_unfixed_within(fields: Seq<Field>, upto: int, text: Seq<u8>)
    requires
        values_within(fields, text),
        0 <= upto <= fields.len(),
    ensures
        values_within(unfixed(fields, upto), text),
    decreases upto,
{
    if upto > 0 {
        lemma_unfixed_within(fields, upto - 1, text);
    }
}

impl FromJson for Issue {
    open spec fn rejects(raw: Seq<u8>) -> Option<DecodeError> {
        match record(raw) {
            Err(e) => Some(e),
            Ok(f) => required_rejects::<String>(raw, f, "self")
                .otherwise(required_rejects::<Id>(raw, f, "id"))
                .otherwise(required_rejects::<String>(raw, f, "key"))
                .otherwise(required_rejects::<String>(raw, f, "expand"))
                .otherwise(fields_rejects(raw, f)),
        }
    }

    open spec fn holds(&self, raw: Seq<u8>) -> bool {
        &&& self.doc() == raw
        &&& match record(raw) {
            Err(_) => false,
            Ok(f) => {
                &&& required_holds(self.self_link, raw, f, "self")
                &&& id_holds(self.id, raw, f, "id")
                &&& required_holds(self.key, raw, f, "key")
                &&& required_holds(self.expand, raw, f, "expand")
                &&& match unique(f, "fields") {
                    Ok(Some(span)) => object_fields(raw, span) == Ok::<Seq<Field>, DecodeError>(
                        self.fields(),
                    ),
                    _ => false,
                }
                &&& self.extra() == unfixed(f, f.len() as int)
            },
        }
    }

    fn from_json(raw: &[u8]) -> (r: Result<Self, DecodeError>) {
        Issue::decode(slice_to_vec(raw))
    }
}

/// `last_upto` looks at the first `upto` fields only.
proof fn lemma_last_upto_prefix(a: Seq<Field>, b: Seq<Field>, name: Seq<char>, upto: int)
    requires
        0 <= upto <= a.len(),
        upto <= b.len(),
        forall|i: int| 0 <= i < upto ==> a[i] == b[i],
    ensures
        last_upto(a, name, upto) == last_upto(b, name, upto),
    decreases upto,
{
    if upto > 0 {
        lemma_last_upto_prefix(a, b, name, upto - 1);
    }
}

/// Setting the fixed members aside does not change what a name that is
/// not fixed maps to.
proof fn lemma_unfixed_last(fields: Seq<Field>, name: Seq<char>, upto: int)
    requires
        !is_fixed(name),
        0 <= upto <= fields.len(),
    ensures
        last(unfixed(fields, upto), name) == (match last_upto(fields, name, upto) {
            Some(i) => Some(fields[i].value),
            None => None,
        }),
    decreases upto,
{
    if upto > 0 {
        lemma_unfixed_last(fields, name, upto - 1);
        let head = unfixed(fields, upto - 1);
        let field = fields[upto - 1];
        if is_fixed(field.key) {
            assert(unfixed(fields, upto) == head);
            assert(field.key != name);
        } else {
            let all = head.push(field);
            assert(unfixed(fields, upto) == all);
            assert(all[all.len() - 1] == field);
            if field.key != name {
                lemma_last_upto_prefix(all, head, name, head.len() as int);
                assert(last_upto(all, name, all.len() as int) == last_upto(
                    all,
                    name,
                    all.len() - 1,
                ));
                match last_upto(head, name, head.len() as int) {
                    Some(i) => {
                        lemma_count(head, name, head.len() as int);
                        assert(all[i] == head[i]);
                    },
                    None => {},
                }
            }
        }
    }
}

/// What is left when the fixed members are set aside is exactly the
/// members whose name is not fixed: every one of them is a member of the
/// object, none of them has a fixed name, and no member with another name
/// is missing.
pub proof fn lemma_unfixed_exact(fields: Seq<Field>, upto: int)
    requires
        0 <= upto <= fields.len(),
    ensures
        forall|i: int|
            0 <= i < unfixed(fields, upto).len() ==> {
                let x = #[trigger] unfixed(fields, upto)[i];
                &&& !is_fixed(x.key)
                &&& exists|j: int| 0 <= j < upto && fields[j] == x
            },
        forall|j: int|
            0 <= j < upto && !is_fixed((#[trigger] fields[j]).key) ==> exists|i: int|
                0 <= i < unfixed(fields, upto).len() && unfixed(fields, upto)[i] == fields[j],
    decreases upto,
{
    if upto > 0 {
        lemma_unfixed_exact(fields, upto - 1);
        let head = unfixed(fields, upto - 1);
        let all = unfixed(fields, upto);
        let field = fields[upto - 1];
        assert forall|i: int| 0 <= i < all.len() implies {
            let x = #[trigger] all[i];
            &&& !is_fixed(x.key)
            &&& exists|j: int| 0 <= j < upto && fields[j] == x
        } by {
            if i < head.len() {
                assert(all[i] == head[i]);
                let j = choose|j: int| 0 <= j < upto - 1 && fields[j] == head[i];
                assert(fields[j] == all[i]);
            } else {
                assert(all[i] == field);
                assert(fields[upto - 1] == all[i]);
            }
        }
        assert forall|j: int|
            0 <= j < upto && !is_fixed((#[trigger] fields[j]).key) implies exists|i: int|
            0 <= i < all.len() && all[i] == fields[j] by {
            if j < upto - 1 {
                let i = choose|i: int| 0 <= i < head.len() && head[i] == fields[j];
                assert(all[i] == fields[j]);
            } else {
                assert(all[all.len() - 1] == fields[j]);
            }
        }
    }
}

/// The members that an issue keeps beside the fixed ones are exactly the
/// members of the document whose name is not fixed, each with the span of
/// its value; no fixed name is among them.
pub proof fn lemma_extra_exact(issue: Issue, raw: Seq<u8>)
    requires
        issue.holds(raw),
    ensures
        record(raw) matches Ok(f) && {
            &&& forall|i: int|
                0 <= i < issue.extra().len() ==> {
                    let x = #[trigger] issue.extra()[i];
                    &&& !is_fixed(x.key)
                    &&& exists|j: int| 0 <= j < f.len() && f[j] == x
                }
            &&& forall|j: int|
                0 <= j < f.len() && !is_fixed((#[trigger] f[j]).key) ==> exists|i: int|
                    0 <= i < issue.extra().len() && issue.extra()[i] == f[j]
        },
{
    let f = record(raw)->Ok_0;
    lemma_unfixed_exact(f, f.len() as int);
}

/// A member of the document whose name the shape does not fix is found
/// again by the path that is its name, with the text it has in the
/// document; and the map of `fields` holds the members of the `fields`
/// object and nothing else.
///
/// A name is a path of one segment only if it holds no dot.
pub proof fn lemma_extra_preserved(issue: Issue, raw: Seq<u8>, name: Seq<char>)
    requires
        issue.holds(raw),
        !is_fixed(name),
        free_of(name, '.'),
    ensures
        record(raw) matches Ok(f) && last(issue.extra(), name) == last(f, name) && issue.located(
            split_dots(name),
        ) == (match last(f, name) {
            Some(span) => Some((span, 1int)),
            None => None,
        }) && (unique(f, "fields") matches Ok(Some(span)) && object_fields(raw, span) == Ok::<
            Seq<Field>,
            DecodeError,
        >(issue.fields())),
        forall|text: Seq<u8>| descend(text, split_dots(name), 1) == Some(text),
{
    let f = record(raw)->Ok_0;
    lemma_unfixed_last(f, name, f.len() as int);
    lemma_pieces_plain(name, '.');
    assert(seq![name][0] == name);
}

/// What a convenience accessor gives for a member of `fields` and what
/// the general accessor gives for the path `fields`, dot, and the member's
/// name are read from the same text, and the one is there exactly when the
/// other decodes.
pub proof fn lemma_accessor_equivalence<T: FromJson>(
    issue: Issue,
    name: Seq<char>,
    direct: Option<T>,
    general: Option<Result<T, DecodeError>>,
)
    requires
        issue.yields(direct, name),
        issue.gives(general, split_dots("fields"@ + seq!['.'] + name)),
    ensures
        direct is Some <==> general matches Some(Ok(_)),
        match (direct, general) {
            (Some(a), Some(Ok(b))) => exists|found: Seq<u8>| a.holds(found) && b.holds(found),
            _ => true,
        },
{
    reveal_strlit("fields");
    assert(free_of("fields"@, '.'));
    lemma_pieces_join("fields"@, '.', name);
    let segments = seq!["fields"@] + split_dots(name);
    if let Some((span, from)) = issue.located(segments) {
        if let Some(a) = direct {
            let found = descend(span.of(issue.doc()), segments, from)->0;
            assert(a.holds(found));
        }
    }
}

/// A path whose first segments name no member gives nothing at all, and a
/// path that names a member and then leaves the document gives
/// `PathNotFound`.
pub proof fn lemma_path_miss<T: FromJson>(
    issue: Issue,
    segments: Seq<Seq<char>>,
    r: Option<Result<T, DecodeError>>,
)
    requires
        issue.gives(r, segments),
    ensures
        segments.len() >= 2 && segments[0] == "fields"@ && last(issue.fields(), segments[1])
            is None ==> r is None,
        segments.len() >= 1 && segments[0] != "fields"@ && last(issue.extra(), segments[0])
            is None ==> r is None,
        issue.located(segments) matches Some((span, from)) ==> (descend(
            span.of(issue.doc()),
            segments,
            from,
        ) is None ==> r == Some(Err::<T, DecodeError>(DecodeError::PathNotFound))),
{
}

/// When an issue can be made of a text, and how making it fails.
///
/// A text that is one JSON object in which each of the five fixed members
/// occurs once and holds a value of its type is never rejected. A text
/// that is not one JSON value is malformed. In an object, the first fixed
/// member, in the order `self`, `id`, `key`, `expand`, `fields`, that is
/// absent, repeated or ill-typed decides the error, and the error names
/// that member.
pub proof fn lemma_construction(raw: Seq<u8>)
    ensures
        document_span(raw) is None ==> Issue::rejects(raw) == Some(DecodeError::MalformedDocument),
        (record(raw) is Ok && Issue::rejects(raw) is Some) ==> {
            let e = Issue::rejects(raw)->0;
            e == DecodeError::MalformedDocument || (e.member() matches Some(name) && is_fixed(
                name@,
            ))
        },
        record(raw) matches Ok(f) ==> {
            &&& Issue::rejects(raw) is None <==> {
                &&& required_rejects::<String>(raw, f, "self") is None
                &&& required_rejects::<Id>(raw, f, "id") is None
                &&& required_rejects::<String>(raw, f, "key") is None
                &&& required_rejects::<String>(raw, f, "expand") is None
                &&& fields_rejects(raw, f) is None
            }
            &&& Issue::rejects(raw) is None ==> {
                &&& count(f, "self"@, f.len() as int) == 1
                &&& count(f, "id"@, f.len() as int) == 1
                &&& count(f, "key"@, f.len() as int) == 1
                &&& count(f, "expand"@, f.len() as int) == 1
                &&& count(f, "fields"@, f.len() as int) == 1
            }
            &&& (required_rejects::<String>(raw, f, "self") is None && required_rejects::<Id>(
                raw,
                f,
                "id",
            ) is None) ==> {
                &&& count(f, "key"@, f.len() as int) == 0 ==> Issue::rejects(raw) == Some(
                    DecodeError::MissingRequiredField("key"),
                )
                &&& count(f, "key"@, f.len() as int) > 1 ==> Issue::rejects(raw) == Some(
                    DecodeError::DuplicateField("key"),
                )
            }
            &&& required_rejects::<String>(raw, f, "self") is None ==> {
                &&& count(f, "id"@, f.len() as int) == 0 ==> Issue::rejects(raw) == Some(
                    DecodeError::MissingRequiredField("id"),
                )
                &&& count(f, "id"@, f.len() as int) > 1 ==> Issue::rejects(raw) == Some(
                    DecodeError::DuplicateField("id"),
                )
                &&& (unique(f, "id") matches Ok(Some(span)) && wire_id(span.of(raw)) is Err)
                    ==> Issue::rejects(raw) == Some(DecodeError::InvalidIdentifier(Some("id")))
            }
        },
{
    if let Ok(f) = record(raw) {
        lemma_count(f, "self"@, f.len() as int);
        lemma_count(f, "id"@, f.len() as int);
        lemma_count(f, "key"@, f.len() as int);
        lemma_count(f, "expand"@, f.len() as int);
        lemma_count(f, "fields"@, f.len() as int);
    }
}

} // verus!
