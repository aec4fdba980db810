//! The options of a request for one issue.

use crate::options::cdelim::{CommaDelimited, ListView};
use crate::options::query::{
    append_texts, extended, flag_param, list_param, list_text, only_true, params_of, push_flag,
    push_list, query_text, to_query, Param, Queries, Sent,
};
use crate::text::texts;
use vstd::prelude::*;

verus! {

/// What to send along with a request for one issue.
#[derive(Debug, Default, Clone)]
pub struct Get {
    fields: Option<CommaDelimited>,
    expand: Option<CommaDelimited>,
    fields_by_key: Option<bool>,
    properties: Option<CommaDelimited>,
    update_history: Option<bool>,
}

/// What a `Get` holds.
pub struct GetView {
    pub fields: Option<ListView>,
    pub expand: Option<ListView>,
    pub fields_by_key: Option<bool>,
    pub properties: Option<ListView>,
    pub update_history: Option<bool>,
}

impl GetView {
    /// The parameters that go into the query, in their order. A list
    /// without values is left out, and so is a flag that is not set.
    pub open spec fn sent(self) -> Seq<Sent> {
        list_param("fields", self.fields) + list_param("expand", self.expand) + flag_param(
            "fieldsByKeys",
            self.fields_by_key,
        ) + list_param("properties", self.properties) + flag_param(
            "updateHistory",
            self.update_history,
        )
    }
}

impl View for Get {
    type V = GetView;

    closed spec fn view(&self) -> GetView {
        GetView {
            fields: list_text(self.fields),
            expand: list_text(self.expand),
            fields_by_key: self.fields_by_key,
            properties: list_text(self.properties),
            update_history: self.update_history,
        }
    }
}

impl Get {
    /// Options that send nothing.
    pub fn new() -> (r: Self)
        ensures
            r@ == (GetView {
                fields: None,
                expand: None,
                fields_by_key: None,
                properties: None,
                update_history: None,
            }),
    {
        Get {
            fields: None,
            expand: None,
            fields_by_key: None,
            properties: None,
            update_history: None,
        }
    }

    /// Asks for these fields of the issue, besides those asked for before.
    pub fn fields(&mut self, fields: &[&str]) -> (r: &mut Self)
        ensures
            r@ == (GetView { fields: extended(old(self)@.fields, texts(fields@)), ..old(self)@ }),
            *final(self) == *final(r),
    {
        append_texts(&mut self.fields, fields);
        self
    }

    /// Replaces the fields to ask for.
    pub fn with_fields(self, fields: Option<&[&str]>) -> (r: Self)
        ensures
            r@ == (GetView {
                fields: match fields {
                    Some(fields) => extended(None, texts(fields@)),
                    None => None,
                },
                ..self@
            }),
    {
        let mut this = self;
        this.fields = None;
        match fields {
            Some(fields) => {
                append_texts(&mut this.fields, fields);
            },
            None => {},
        }
        this
    }

    /// Asks to expand these parts of the answer, besides those asked for
    /// before.
    pub fn expand(&mut self, expand: &[&str]) -> (r: &mut Self)
        ensures
            r@ == (GetView { expand: extended(old(self)@.expand, texts(expand@)), ..old(self)@ }),
            *final(self) == *final(r),
    {
        append_texts(&mut self.expand, expand);
        self
    }

    /// Says whether fields are named by key rather than by id. Only `true`
    /// is ever sent.
    pub fn fields_by_key(&mut self, by_key: Option<bool>) -> (r: &mut Self)
        ensures
            r@ == (GetView {
                fields_by_key: if by_key == Some(true) {
                    Some(true)
                } else {
                    None
                },
                ..old(self)@
            }),
            *final(self) == *final(r),
    {
        self.fields_by_key = only_true(by_key);
        self
    }

    /// Asks for these properties of the issue, besides those asked for
    /// before.
    pub fn properties(&mut self, properties: &[&str]) -> (r: &mut Self)
        ensures
            r@ == (GetView {
                properties: extended(old(self)@.properties, texts(properties@)),
                ..old(self)@
            }),
            *final(self) == *final(r),
    {
        append_texts(&mut self.properties, properties);
        self
    }

    /// Says whether the request counts for the user's history. Only
    /// `true` is ever sent.
    pub fn update_history(&mut self, update: Option<bool>) -> (r: &mut Self)
        ensures
            r@ == (GetView {
                update_history: if update == Some(true) {
                    Some(true)
                } else {
                    None
                },
                ..old(self)@
            }),
            *final(self) == *final(r),
    {
        self.update_history = only_true(update);
        self
    }

    /// Runs `f` on the options and gives the options back.
    pub fn with<F>(self, f: F) -> (r: Self) where F: FnOnce(&mut Self) -> &mut Self
        requires
            forall|options: &mut Self| *options == self ==> call_requires(f, (options,)),
        ensures
            exists|options: &mut Self, out: &mut Self|
                *options == self && call_ensures(f, (options,), out) && *final(options) == r,
    {
        let mut this = self;
        f(&mut this);
        this
    }

    /// The parameters that go into the query.
    pub fn to_params(&self) -> (r: Vec<Param>)
        ensures
            params_of(r@) == self@.sent(),
    {
        let mut params: Vec<Param> = Vec::new();
        push_list(&mut params, "fields", &self.fields);
        push_list(&mut params, "expand", &self.expand);
        push_flag(&mut params, "fieldsByKeys", self.fields_by_key);
        push_list(&mut params, "properties", &self.properties);
        push_flag(&mut params, "updateHistory", self.update_history);
        params
    }

    /// The query string that the options make; none where they send
    /// nothing.
    pub fn to_query(&self) -> (r: Option<String>)
        ensures
            match r {
                Some(query) => self@.sent().len() > 0 && query@ == query_text(
                    self@.sent(),
                    self@.sent().len() as int,
                ),
                None => self@.sent().len() == 0,
            },
    {
        let params = self.to_params();
        to_query(&params)
    }
}

/// Hands out the parameters of a `Get` one by one.
#[derive(Debug)]
pub struct GetIter {
    inner: Queries,
}

impl GetIter {
    /// The parameters that are still to come.
    pub closed spec fn remaining(&self) -> Seq<Sent> {
        self.inner.remaining()
    }

    /// Starts with all the parameters that `owner` sends.
    pub fn new(owner: &Get) -> (r: Self)
        ensures
            r.remaining() == owner@.sent(),
    {
        GetIter { inner: Queries::new(owner.to_params()) }
    }

    /// The next parameter, if one is left.
    pub fn next(&mut self) -> (r: Option<Param>)
        ensures
            ({
                let before = old(self).remaining();
                let after = final(self).remaining();
                match r {
                    Some(param) => before.len() > 0 && param.key@ == before[0].key && param.value@
                        == before[0].value && after == before.skip(1),
                    None => before.len() == 0 && after == before,
                }
            }),
    {
        self.inner.next()
    }
}

} // verus!
