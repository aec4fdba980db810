//! The options of a request for the metadata of creating issues.

use crate::options::cdelim::{CommaDelimited, ListView};
use crate::options::query::{
    append_numbers, append_texts, extended, list_param, list_text, number_texts, params_of,
    push_list, query_text, to_query, Param, Queries, Sent,
};
use crate::text::texts;
use vstd::prelude::*;

verus! {

/// Which projects and issue types to return metadata for. Projects and
/// issue types can each be named by id and by key; what is named either
/// way is returned.
#[derive(Debug, Default, Clone)]
pub struct MetaCreate {
    project_ids: Option<CommaDelimited>,
    project_keys: Option<CommaDelimited>,
    issuetype_ids: Option<CommaDelimited>,
    issuetype_keys: Option<CommaDelimited>,
    expand: Option<CommaDelimited>,
}

/// What a `MetaCreate` holds.
pub struct MetaCreateView {
    pub project_ids: Option<ListView>,
    pub project_keys: Option<ListView>,
    pub issuetype_ids: Option<ListView>,
    pub issuetype_keys: Option<ListView>,
    pub expand: Option<ListView>,
}

impl MetaCreateView {
    /// The parameters that go into the query, in their order. A list
    /// without values is left out.
    pub open spec fn sent(self) -> Seq<Sent> {
        list_param("projectIds", self.project_ids) + list_param("projectKeys", self.project_keys)
            + list_param("issuetypeIds", self.issuetype_ids) + list_param(
            "issuetypeNames",
            self.issuetype_keys,
        ) + list_param("expand", self.expand)
    }
}

impl View for MetaCreate {
    type V = MetaCreateView;

    closed spec fn view(&self) -> MetaCreateView {
        MetaCreateView {
            project_ids: list_text(self.project_ids),
            project_keys: list_text(self.project_keys),
            issuetype_ids: list_text(self.issuetype_ids),
            issuetype_keys: list_text(self.issuetype_keys),
            expand: list_text(self.expand),
        }
    }
}

impl MetaCreate {
    /// Options that send nothing.
    pub fn new() -> (r: Self)
        ensures
            r@ == (MetaCreateView {
                project_ids: None,
                project_keys: None,
                issuetype_ids: None,
                issuetype_keys: None,
                expand: None,
            }),
    {
        MetaCreate {
            project_ids: None,
            project_keys: None,
            issuetype_ids: None,
            issuetype_keys: None,
            expand: None,
        }
    }

    /// Returns the projects with these keys too.
    pub fn project_keys(&mut self, keys: &[&str]) -> (r: &mut Self)
        ensures
            r@ == (MetaCreateView {
                project_keys: extended(old(self)@.project_keys, texts(keys@)),
                ..old(self)@
            }),
            *final(self) == *final(r),
    {
        append_texts(&mut self.project_keys, keys);
        self
    }

    /// Returns the projects with these ids too.
    pub fn project_ids(&mut self, ids: &[u64]) -> (r: &mut Self)
        ensures
            r@ == (MetaCreateView {
                project_ids: extended(old(self)@.project_ids, number_texts(ids@)),
                ..old(self)@
            }),
            *final(self) == *final(r),
    {
        append_numbers(&mut self.project_ids, ids);
        self
    }

    /// Returns the issue types with these names too. The names are
    /// case-sensitive and differ between installations.
    pub fn issuetype_keys(&mut self, keys: &[&str]) -> (r: &mut Self)
        ensures
            r@ == (MetaCreateView {
                issuetype_keys: extended(old(self)@.issuetype_keys, texts(keys@)),
                ..old(self)@
            }),
            *final(self) == *final(r),
    {
        append_texts(&mut self.issuetype_keys, keys);
        self
    }

    /// Returns the issue types with these ids too.
    pub fn issuetype_ids(&mut self, ids: &[u64]) -> (r: &mut Self)
        ensures
            r@ == (MetaCreateView {
                issuetype_ids: extended(old(self)@.issuetype_ids, number_texts(ids@)),
                ..old(self)@
            }),
            *final(self) == *final(r),
    {
        append_numbers(&mut self.issuetype_ids, ids);
        self
    }

    /// Asks to expand these parts of the answer, besides those asked for
    /// before. Without `projects.issuetypes.fields` the answer holds no
    /// fields.
    pub fn expand(&mut self, expand: &[&str]) -> (r: &mut Self)
        ensures
            r@ == (MetaCreateView {
                expand: extended(old(self)@.expand, texts(expand@)),
                ..old(self)@
            }),
            *final(self) == *final(r),
    {
        append_texts(&mut self.expand, expand);
        self
    }

    /// Runs `f` on the options and gives the options back.
    pub fn with<F>(self, f: F) -> (r: Self) where F: FnOnce(&mut Self) -> &mut Self
        requires
            forall|options: &mut Self| *options == self ==> call_requires(f, (options,)),
        ensures
            exists|options: &mut Self, out: &mut Self|
                *options == self && call_ensures(f, (options,), out) && *final(options) == r,
    {
        let mut this = self;
        f(&mut this);
        this
    }

    /// The parameters that go into the query.
    pub fn to_params(&self) -> (r: Vec<Param>)
        ensures
            params_of(r@) == self@.sent(),
    {
        let mut params: Vec<Param> = Vec::new();
        push_list(&mut params, "projectIds", &self.project_ids);
        push_list(&mut params, "projectKeys", &self.project_keys);
        push_list(&mut params, "issuetypeIds", &self.issuetype_ids);
        push_list(&mut params, "issuetypeNames", &self.issuetype_keys);
        push_list(&mut params, "expand", &self.expand);
        params
    }

    /// The query string that the options make; none where they send
    /// nothing.
    pub fn to_query(&self) -> (r: Option<String>)
        ensures
            match r {
                Some(query) => self@.sent().len() > 0 && query@ == query_text(
                    self@.sent(),
                    self@.sent().len() as int,
                ),
                None => self@.sent().len() == 0,
            },
    {
        let params = self.to_params();
        to_query(&params)
    }
}

/// Hands out the parameters of a `MetaCreate` one by one.
#[derive(Debug)]
pub struct MetaCreateIter {
    inner: Queries,
}

impl MetaCreateIter {
    /// The parameters that are still to come.
    pub closed spec fn remaining(&self) -> Seq<Sent> {
        self.inner.remaining()
    }

    /// Starts with all the parameters that `owner` sends.
    pub fn new(owner: &MetaCreate) -> (r: Self)
        ensures
            r.remaining() == owner@.sent(),
    {
        MetaCreateIter { inner: Queries::new(owner.to_params()) }
    }

    /// The next parameter, if one is left.
    pub fn next(&mut self) -> (r: Option<Param>)
        ensures
            ({
                let before = old(self).remaining();
                let after = final(self).remaining();
                match r {
                    Some(param) => before.len() > 0 && param.key@ == before[0].key && param.value@
                        == before[0].value && after == before.skip(1),
                    None => before.len() == 0 && after == before,
                }
            }),
    {
        self.inner.next()
    }
}

} // verus!
