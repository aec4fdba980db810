//! What the command line asks for, turned into options of requests.

use crate::id::{text_id, Id};
use crate::options::cdelim::ListView;
use crate::options::create::{Create, CreateView};
use crate::options::get::{Get, GetView};
use crate::options::metadata::{MetaCreate, MetaCreateView};
use crate::options::query::{extended, number_texts};
use crate::options::search::{Search, SearchView};
use crate::options::validate::ValidateQuery;
use crate::text::texts;
use vstd::prelude::*;
use vstd::string::{StrSliceExecFns, StringExecFns};

verus! {

/// The expansion that makes the tracker return the fields of each issue
/// type.
pub const EXPAND_ALL: &'static str = "projects.issuetypes.fields";

/// The log level for a number of `-v` flags: the number itself up to
/// four, and five for any more.
pub fn get_level(o: u64) -> (r: u8)
    ensures
        r == (if o <= 4 {
            o as u8
        } else {
            5u8
        }),
{
    if o <= 4 {
        o as u8
    } else {
        5
    }
}

/// The message for a validation level that does not exist.
pub open spec fn unknown_level(input: Seq<char>) -> Seq<char> {
    "expected one of [strict, warn, none], got '"@ + input + "'"@
}

/// Reads a validation level from the command line.
pub fn try_into_validate(input: &str) -> (r: Result<ValidateQuery, String>)
    ensures
        match r {
            Ok(level) => input@ == level.name(),
            Err(message) => input@ != "strict"@ && input@ != "warn"@ && input@ != "none"@
                && message@ == unknown_level(input@),
        },
{
    match ValidateQuery::try_new(input) {
        Some(level) => Ok(level),
        None => {
            let mut message = String::from_str("expected one of [strict, warn, none], got '");
            message.append(input);
            message.append("'");
            Err(message)
        },
    }
}

/// The texts of a list of owned texts.
pub open spec fn owned_texts(items: Seq<String>) -> Seq<Seq<char>> {
    Seq::new(items.len(), |i: int| items[i]@)
}

/// The texts of an optional list, none for a list that is absent.
pub open spec fn optional_texts(items: Option<Vec<String>>) -> Seq<Seq<char>> {
    match items {
        Some(items) => owned_texts(items@),
        None => Seq::empty(),
    }
}

/// Borrows the texts of an optional list.
fn borrowed(items: &Option<Vec<String>>) -> (r: Vec<&str>)
    ensures
        texts(r@) == optional_texts(*items),
{
    let mut out: Vec<&str> = Vec::new();
    match items {
        Some(items) => {
            let mut i: usize = 0;
            while i < items.len()
                invariant
                    i <= items.len(),
                    out@.len() == i,
                    forall|k: int| 0 <= k < i ==> (#[trigger] out@[k])@ == items@[k]@,
                decreases items.len() - i,
            {
                out.push(items[i].as_str());
                i = i + 1;
            }
            assert(texts(out@) =~= owned_texts(items@));
        },
        None => {
            assert(texts(out@) =~= Seq::<Seq<char>>::empty());
        },
    }
    out
}

/// Turns a switch of the command line into a flag that is sent only
/// where it is set.
pub open spec fn switch(on: bool) -> Option<bool> {
    if on {
        Some(true)
    } else {
        None
    }
}

/// The options of `issues get`.
#[derive(Debug, Clone)]
pub struct IssuesGet {
    pub fields_by_key: bool,
    pub update_history: bool,
    pub fields: Option<Vec<String>>,
    pub expand: Option<Vec<String>>,
    pub properties: Option<Vec<String>>,
}

impl IssuesGet {
    /// The options of the request that the command makes.
    pub fn to_options(&self) -> (r: Get)
        ensures
            r@ == (GetView {
                fields: extended(None, optional_texts(self.fields)),
                expand: extended(None, optional_texts(self.expand)),
                fields_by_key: switch(self.fields_by_key),
                properties: extended(None, optional_texts(self.properties)),
                update_history: switch(self.update_history),
            }),
    {
        let mut options = Get::new();
        let fields = borrowed(&self.fields);
        let expand = borrowed(&self.expand);
        let properties = borrowed(&self.properties);
        options.fields_by_key(Some(self.fields_by_key)).update_history(
            Some(self.update_history),
        ).fields(fields.as_slice()).expand(expand.as_slice()).properties(properties.as_slice());
        options
    }
}

/// The options of `issues create`.
#[derive(Debug, Clone, Copy)]
pub struct IssueCreate {
    pub update_history: bool,
}

impl IssueCreate {
    /// The options of the request that the command makes.
    pub fn to_options(&self) -> (r: Create)
        ensures
            r@ == (CreateView { update_history: switch(self.update_history) }),
    {
        let mut options = Create::new();
        options.update_history(Some(self.update_history));
        options
    }
}

/// The options of `issues search`.
#[derive(Debug, Clone)]
pub struct IssuesSearch {
    pub fields_by_key: bool,
    pub expand: Option<Vec<String>>,
    pub fields: Option<Vec<String>>,
    pub max_results: Option<u32>,
    pub properties: Option<Vec<String>>,
    pub start_at: Option<u32>,
    pub validate: Option<ValidateQuery>,
}

impl IssuesSearch {
    /// The options of the request that the command makes, still without
    /// the query to search with.
    pub fn as_options(&self) -> (r: Search)
        ensures
            r@ == (SearchView {
                jql: None,
                start_at: self.start_at,
                max_results: if self.max_results == Some(0u32) {
                    None
                } else {
                    self.max_results
                },
                validate: self.validate,
                fields: extended(None, optional_texts(self.fields)),
                expand: extended(None, optional_texts(self.expand)),
                properties: extended(None, optional_texts(self.properties)),
                fields_by_key: switch(self.fields_by_key),
            }),
    {
        let mut options = Search::new();
        let fields = borrowed(&self.fields);
        let expand = borrowed(&self.expand);
        let properties = borrowed(&self.properties);
        options.fields_by_key(Some(self.fields_by_key)).expand(expand.as_slice()).fields(
            fields.as_slice(),
        ).max_results(self.max_results).properties(properties.as_slice()).start_at(
            self.start_at,
        ).validate(self.validate);
        options
    }
}

/// The number that a text of the command line stands for, read as the
/// standard library reads a `u64`: an optional plus sign, then a run of
/// ASCII digits that fits in 64 bits.
pub open spec fn numeric(text: Seq<char>) -> Option<u64> {
    let digits = if text.len() > 0 && text[0] == '+' {
        text.skip(1)
    } else {
        text
    };
    match text_id(digits) {
        Ok(n) => Some(n),
        Err(_) => None,
    }
}

/// Reads a number from a text of the command line.
pub fn parse_number(text: &str) -> (r: Option<u64>)
    ensures
        r == numeric(text@),
{
    let n = text.unicode_len();
    let digits = if n > 0 && text.get_char(0) == '+' {
        let rest = text.substring_char(1, n);
        assert(rest@ =~= text@.skip(1));
        rest
    } else {
        text
    };
    match Id::visit_str(digits) {
        Ok(id) => Some(id.get()),
        Err(_) => None,
    }
}

/// Two optional lists after the first `upto` of `items` were sorted into
/// them: an item that is a number goes to the ids, any other to the keys.
pub open spec fn sorted_into(
    ids: Option<ListView>,
    keys: Option<ListView>,
    items: Seq<Seq<char>>,
    upto: int,
) -> (Option<ListView>, Option<ListView>)
    decreases upto,
{
    if upto <= 0 {
        (ids, keys)
    } else {
        let before = sorted_into(ids, keys, items, upto - 1);
        match numeric(items[upto - 1]) {
            Some(n) => (extended(before.0, number_texts(seq![n])), before.1),
            None => (before.0, extended(before.1, seq![items[upto - 1]])),
        }
    }
}

/// The options of `issues meta`.
#[derive(Debug, Clone)]
pub struct IssueMetadata {
    pub projects: Option<Vec<String>>,
    pub issue_types: Option<Vec<String>>,
    pub edit: Option<String>,
    pub short: bool,
}

/// Which metadata `issues meta` asks for.
#[derive(Debug, Clone)]
pub enum MetaKind {
    /// The metadata of creating issues, narrowed by these options.
    Create(MetaCreate),
    /// The metadata of editing this issue.
    Edit(String),
}

impl IssueMetadata {
    /// What the options of the request for the metadata of creating
    /// issues hold: the projects and the issue types, each sorted into ids
    /// and keys, and the expansion of the fields unless the short form is
    /// asked for.
    pub open spec fn asked(&self) -> MetaCreateView {
        let projects = optional_texts(self.projects);
        let types = optional_texts(self.issue_types);
        let by_project = sorted_into(None, None, projects, projects.len() as int);
        let by_type = sorted_into(None, None, types, types.len() as int);
        MetaCreateView {
            project_ids: by_project.0,
            project_keys: by_project.1,
            issuetype_ids: by_type.0,
            issuetype_keys: by_type.1,
            expand: if self.short {
                None
            } else {
                extended(None, seq![EXPAND_ALL@])
            },
        }
    }

    /// The options of the request for the metadata of creating issues.
    /// Projects and issue types are given by id where they are numbers
    /// and by key otherwise. Unless the short form is asked for, the
    /// fields of each issue type are expanded.
    pub fn to_options(&self) -> (r: MetaCreate)
        ensures
            r@ == self.asked(),
    {
        let mut meta = MetaCreate::new();
        let projects = borrowed(&self.projects);
        let mut i: usize = 0;
        while i < projects.len()
            invariant
                i <= projects.len(),
                texts(projects@) == optional_texts(self.projects),
                ({
                    let sorted = sorted_into(None, None, texts(projects@), i as int);
                    meta@ == (MetaCreateView {
                        project_ids: sorted.0,
                        project_keys: sorted.1,
                        issuetype_ids: None,
                        issuetype_keys: None,
                        expand: None,
                    })
                }),
            decreases projects.len() - i,
        {
            let project = projects[i];
            assert(texts(projects@)[i as int] == project@);
            match parse_number(project) {
                Some(num) => {
                    let mut one: Vec<u64> = Vec::new();
                    one.push(num);
                    assert(number_texts(one@) =~= number_texts(seq![num]));
                    meta.project_ids(one.as_slice());
                },
                None => {
                    let mut one: Vec<&str> = Vec::new();
                    one.push(project);
                    assert(texts(one@) =~= seq![project@]);
                    meta.project_keys(one.as_slice());
                },
            }
            i = i + 1;
        }
        let types = borrowed(&self.issue_types);
        let ghost by_project = sorted_into(None, None, texts(projects@), projects@.len() as int);
        let mut j: usize = 0;
        while j < types.len()
            invariant
                j <= types.len(),
                texts(types@) == optional_texts(self.issue_types),
                ({
                    let sorted = sorted_into(None, None, texts(types@), j as int);
                    meta@ == (MetaCreateView {
                        project_ids: by_project.0,
                        project_keys: by_project.1,
                        issuetype_ids: sorted.0,
                        issuetype_keys: sorted.1,
                        expand: None,
                    })
                }),
            decreases types.len() - j,
        {
            let ty = types[j];
            assert(texts(types@)[j as int] == ty@);
            match parse_number(ty) {
                Some(num) => {
                    let mut one: Vec<u64> = Vec::new();
                    one.push(num);
                    assert(number_texts(one@) =~= number_texts(seq![num]));
                    meta.issuetype_ids(one.as_slice());
                },
                None => {
                    let mut one: Vec<&str> = Vec::new();
                    one.push(ty);
                    assert(texts(one@) =~= seq![ty@]);
                    meta.issuetype_keys(one.as_slice());
                },
            }
            j = j + 1;
        }
        if !self.short {
            let mut one: Vec<&str> = Vec::new();
            one.push(EXPAND_ALL);
            assert(texts(one@) =~= seq![EXPAND_ALL@]);
            meta.expand(one.as_slice());
        }
        meta
    }

    /// Which metadata the command asks for: that of editing an issue
    /// where one is named, and that of creating issues otherwise.
    pub fn kind(&self) -> (r: MetaKind)
        ensures
            match self.edit {
                Some(issue) => r matches MetaKind::Edit(key) && key@ == issue@,
                None => r matches MetaKind::Create(options) && options@ == self.asked(),
            },
    {
        match &self.edit {
            Some(issue) => MetaKind::Edit(issue.clone()),
            None => MetaKind::Create(self.to_options()),
        }
    }
}

} // verus!
