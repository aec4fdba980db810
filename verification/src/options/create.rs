//! The options of a request that creates an issue.

use crate::options::query::{
    flag_param, only_true, params_of, push_flag, query_text, to_query, Param, Sent,
};
use vstd::prelude::*;

verus! {

/// What to send along with a request that creates an issue.
#[derive(Debug, Default, Clone)]
pub struct Create {
    update_history: Option<bool>,
}

/// What a `Create` holds.
pub struct CreateView {
    pub update_history: Option<bool>,
}

impl CreateView {
    /// The parameters that go into the query: the flag where it is set,
    /// and nothing otherwise.
    pub open spec fn sent(self) -> Seq<Sent> {
        flag_param("updateHistory", self.update_history)
    }
}

impl View for Create {
    type V = CreateView;

    closed spec fn view(&self) -> CreateView {
        CreateView { update_history: self.update_history }
    }
}

impl Create {
    /// Options that send nothing.
    pub fn new() -> (r: Self)
        ensures
            r@ == (CreateView { update_history: None }),
    {
        Create { update_history: None }
    }

    /// Says whether the request counts for the user's history. Only
    /// `true` is ever sent.
    pub fn update_history(&mut self, update: Option<bool>) -> (r: &mut Self)
        ensures
            r@ == (CreateView {
                update_history: if update == Some(true) {
                    Some(true)
                } else {
                    None
                },
            }),
            *final(self) == *final(r),
    {
        self.update_history = only_true(update);
        self
    }

    /// Runs `f` on the options and gives the options back.
    pub fn with<F>(self, f: F) -> (r: Self) where F: FnOnce(&mut Self) -> &mut Self
        requires
            forall|options: &mut Self| *options == self ==> call_requires(f, (options,)),
        ensures
            exists|options: &mut Self, out: &mut Self|
                *options == self && call_ensures(f, (options,), out) && *final(options) == r,
    {
        let mut this = self;
        f(&mut this);
        this
    }

    /// The parameters that go into the query.
    pub fn to_params(&self) -> (r: Vec<Param>)
        ensures
            params_of(r@) == self@.sent(),
    {
        let mut params: Vec<Param> = Vec::new();
        push_flag(&mut params, "updateHistory", self.update_history);
        params
    }

    /// The query string that the options make; none where they send
    /// nothing.
    pub fn to_query(&self) -> (r: Option<String>)
        ensures
            match r {
                Some(query) => self@.sent().len() > 0 && query@ == query_text(
                    self@.sent(),
                    self@.sent().len() as int,
                ),
                None => self@.sent().len() == 0,
            },
    {
        let params = self.to_params();
        to_query(&params)
    }
}

} // verus!
