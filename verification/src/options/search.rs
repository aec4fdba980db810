//! The options of a search.

use crate::options::cdelim::{CommaDelimited, ListView};
use crate::options::query::{
    append_texts, extended, flag_param, list_param, list_text, number_param, only_true, params_of,
    push_flag, push_list, push_number, push_text, query_text, text_param, to_query, Param, Queries,
    Sent,
};
use crate::options::validate::ValidateQuery;
use crate::text::texts;
use vstd::prelude::*;
use vstd::string::StringExecFns;

verus! {

/// Returns field values rendered in HTML format.
pub const RENDERED_FIELDS: &'static str = "renderedFields";

/// Returns the display name of each field.
pub const NAMES: &'static str = "names";

/// Returns the schema describing a field type.
pub const SCHEMA: &'static str = "schema";

/// Returns all possible transitions for the issue.
pub const TRANSITIONS: &'static str = "transitions";

/// Returns all possible operations for the issue.
pub const OPERATIONS: &'static str = "operations";

/// Returns information about how each field can be edited.
pub const EDITMETA: &'static str = "editmeta";

/// Returns a list of recent updates to an issue, sorted by date, starting
/// from the most recent.
pub const CHANGELOG: &'static str = "changelog";

/// Instead of `fields`, returns `versionedRepresentations`, a JSON array
/// containing each version of a field's value, with the highest numbered
/// item representing the most recent version.
pub const VERSIONED_REPR: &'static str = "versionedRepresentations";

/// What to send with a search: the query in the tracker's query language,
/// the window of results to return, and what to return of each issue.
#[derive(Debug, Default, Clone)]
pub struct Search {
    jql: Option<String>,
    start_at: Option<u32>,
    max_results: Option<u32>,
    validate: Option<ValidateQuery>,
    fields: Option<CommaDelimited>,
    expand: Option<CommaDelimited>,
    properties: Option<CommaDelimited>,
    fields_by_key: Option<bool>,
}

/// What a `Search` holds.
pub struct SearchView {
    pub jql: Option<Seq<char>>,
    pub start_at: Option<u32>,
    pub max_results: Option<u32>,
    pub validate: Option<ValidateQuery>,
    pub fields: Option<ListView>,
    pub expand: Option<ListView>,
    pub properties: Option<ListView>,
    pub fields_by_key: Option<bool>,
}

/// The name of an optional level.
pub open spec fn level_name(level: Option<ValidateQuery>) -> Option<Seq<char>> {
    match level {
        Some(level) => Some(level.name()),
        None => None,
    }
}

impl SearchView {
    /// The parameters that go into the query, in their order. What was
    /// not set is left out, and so are a list without values and a flag
    /// that is not set.
    pub open spec fn sent(self) -> Seq<Sent> {
        text_param("jql", self.jql) + number_param("startAt", self.start_at) + number_param(
            "maxResults",
            self.max_results,
        ) + text_param("validateQuery", level_name(self.validate)) + list_param(
            "fields",
            self.fields,
        ) + list_param("expand", self.expand) + list_param("properties", self.properties)
            + flag_param("fieldsByKeys", self.fields_by_key)
    }
}

impl View for Search {
    type V = SearchView;

    closed spec fn view(&self) -> SearchView {
        SearchView {
            jql: match self.jql {
                Some(jql) => Some(jql@),
                None => None,
            },
            start_at: self.start_at,
            max_results: self.max_results,
            validate: self.validate,
            fields: list_text(self.fields),
            expand: list_text(self.expand),
            properties: list_text(self.properties),
            fields_by_key: self.fields_by_key,
        }
    }
}

impl Search {
    /// Options that send nothing.
    pub fn new() -> (r: Self)
        ensures
            r@ == (SearchView {
                jql: None,
                start_at: None,
                max_results: None,
                validate: None,
                fields: None,
                expand: None,
                properties: None,
                fields_by_key: None,
            }),
    {
        Search {
            jql: None,
            start_at: None,
            max_results: None,
            validate: None,
            fields: None,
            expand: None,
            properties: None,
            fields_by_key: None,
        }
    }

    /// Sets the query to search with, or takes it away.
    pub fn jql(&mut self, jql: Option<&str>) -> (r: &mut Self)
        ensures
            r@ == (SearchView {
                jql: match jql {
                    Some(jql) => Some(jql@),
                    None => None,
                },
                ..old(self)@
            }),
            *final(self) == *final(r),
    {
        self.jql = match jql {
            Some(jql) => Some(String::from_str(jql)),
            None => None,
        };
        self
    }

    /// Sets the position of the first result to return.
    pub fn start_at(&mut self, start_at: Option<u32>) -> (r: &mut Self)
        ensures
            r@ == (SearchView { start_at, ..old(self)@ }),
            *final(self) == *final(r),
    {
        self.start_at = start_at;
        self
    }

    /// Sets how many results to return at most. Zero stands for no limit
    /// of the caller's and is not sent.
    pub fn max_results(&mut self, max_results: Option<u32>) -> (r: &mut Self)
        ensures
            r@ == (SearchView {
                max_results: if max_results == Some(0u32) {
                    None
                } else {
                    max_results
                },
                ..old(self)@
            }),
            *final(self) == *final(r),
    {
        self.max_results = match max_results {
            Some(0) => None,
            other => other,
        };
        self
    }

    /// Sets how strictly the query is checked.
    pub fn validate(&mut self, validate: Option<ValidateQuery>) -> (r: &mut Self)
        ensures
            r@ == (SearchView { validate, ..old(self)@ }),
            *final(self) == *final(r),
    {
        self.validate = validate;
        self
    }

    /// Asks for these fields of each issue, besides those asked for before.
    pub fn fields(&mut self, fields: &[&str]) -> (r: &mut Self)
        ensures
            r@ == (SearchView {
                fields: extended(old(self)@.fields, texts(fields@)),
                ..old(self)@
            }),
            *final(self) == *final(r),
    {
        append_texts(&mut self.fields, fields);
        self
    }

    /// Asks to expand these parts of the answer, besides those asked for
    /// before.
    pub fn expand(&mut self, expand: &[&str]) -> (r: &mut Self)
        ensures
            r@ == (SearchView {
                expand: extended(old(self)@.expand, texts(expand@)),
                ..old(self)@
            }),
            *final(self) == *final(r),
    {
        append_texts(&mut self.expand, expand);
        self
    }

    /// Asks for these properties of each issue, besides those asked for
    /// before.
    pub fn properties(&mut self, properties: &[&str]) -> (r: &mut Self)
        ensures
            r@ == (SearchView {
                properties: extended(old(self)@.properties, texts(properties@)),
                ..old(self)@
            }),
            *final(self) == *final(r),
    {
        append_texts(&mut self.properties, properties);
        self
    }

    /// Says whether fields are named by key rather than by id. Only `true`
    /// is ever sent.
    pub fn fields_by_key(&mut self, by_key: Option<bool>) -> (r: &mut Self)
        ensures
            r@ == (SearchView {
                fields_by_key: if by_key == Some(true) {
                    Some(true)
                } else {
                    None
                },
                ..old(self)@
            }),
            *final(self) == *final(r),
    {
        self.fields_by_key = only_true(by_key);
        self
    }

    /// Runs `f` on the options and gives the options back.
    pub fn with<F>(self, f: F) -> (r: Self) where F: FnOnce(&mut Self) -> &mut Self
        requires
            forall|options: &mut Self| *options == self ==> call_requires(f, (options,)),
        ensures
            exists|options: &mut Self, out: &mut Self|
                *options == self && call_ensures(f, (options,), out) && *final(options) == r,
    {
        let mut this = self;
        f(&mut this);
        this
    }

    /// The parameters that go into the query.
    pub fn to_params(&self) -> (r: Vec<Param>)
        ensures
            params_of(r@) == self@.sent(),
    {
        let mut params: Vec<Param> = Vec::new();
        push_text(&mut params, "jql", &self.jql);
        push_number(&mut params, "startAt", self.start_at);
        push_number(&mut params, "maxResults", self.max_results);
        let level = match self.validate {
            Some(level) => Some(String::from_str(level.as_str())),
            None => None,
        };
        push_text(&mut params, "validateQuery", &level);
        push_list(&mut params, "fields", &self.fields);
        push_list(&mut params, "expand", &self.expand);
        push_list(&mut params, "properties", &self.properties);
        push_flag(&mut params, "fieldsByKeys", self.fields_by_key);
        params
    }

    /// The query string that the options make; none where they send
    /// nothing.
    pub fn to_query(&self) -> (r: Option<String>)
        ensures
            match r {
                Some(query) => self@.sent().len() > 0 && query@ == query_text(
                    self@.sent(),
                    self@.sent().len() as int,
                ),
                None => self@.sent().len() == 0,
            },
    {
        let params = self.to_params();
        to_query(&params)
    }
}

/// Hands out the parameters of a `Search` one by one.
#[derive(Debug)]
pub struct SearchIter {
    inner: Queries,
}

impl SearchIter {
    /// The parameters that are still to come.
    pub closed spec fn remaining(&self) -> Seq<Sent> {
        self.inner.remaining()
    }

    /// Starts with all the parameters that `owner` sends.
    pub fn new(owner: &Search) -> (r: Self)
        ensures
            r.remaining() == owner@.sent(),
    {
        SearchIter { inner: Queries::new(owner.to_params()) }
    }

    /// The next parameter, if one is left.
    pub fn next(&mut self) -> (r: Option<Param>)
        ensures
            ({
                let before = old(self).remaining();
                let after = final(self).remaining();
                match r {
                    Some(param) => before.len() > 0 && param.key@ == before[0].key && param.value@
                        == before[0].value && after == before.skip(1),
                    None => before.len() == 0 && after == before,
                }
            }),
    {
        self.inner.next()
    }
}

} // verus!
