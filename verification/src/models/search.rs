//! One page of the result of a search.

use crate::decode::{FromJson, Reasons};
use crate::error::DecodeError;
use crate::models::issue::Issue;
use crate::object::{record, required_holds, required_rejects, Object};
use vstd::prelude::*;

verus! {

/// The answer to a search: the text of the response, and the `Search`
/// that was read from it.
///
/// The text cannot be changed while the handle lives. A caller borrows
/// the decoded value, or gives the handle up to get the text back.
#[derive(Debug)]
pub struct SearchHandle {
    store: Vec<u8>,
    search: Search,
}

impl SearchHandle {
    #[verifier::type_invariant]
    spec fn wf(self) -> bool {
        self.search.holds(self.store@)
    }

    /// The text that the handle owns.
    pub closed spec fn store(&self) -> Seq<u8> {
        self.store@
    }

    /// The value that `data` lends.
    pub closed spec fn view(&self) -> Search {
        self.search
    }

    /// Reads the response once. On any error there is no handle, and the
    /// text is dropped.
    pub fn try_new(store: Vec<u8>) -> (r: Result<Self, DecodeError>)
        ensures
            match r {
                Ok(h) => Search::rejects(store@) is None && h.store() == store@ && h@.holds(
                    store@,
                ),
                Err(e) => Search::rejects(store@) == Some(e),
            },
    {
        let search = Search::from_json(store.as_slice())?;
        Ok(SearchHandle { store, search })
    }

    /// The decoded response.
    pub fn data(&self) -> (r: &Search)
        ensures
            *r == self@,
            r.holds(self.store()),
    {
        proof {
            use_type_invariant(self);
        }
        &self.search
    }

    /// The text of the response.
    pub fn raw(&self) -> (r: &[u8])
        ensures
            r@ == self.store(),
    {
        self.store.as_slice()
    }

    /// Ends the handle and gives back the text it was made from,
    /// unchanged.
    pub fn into_inner(self) -> (r: Vec<u8>)
        ensures
            r@ == self.store(),
    {
        self.store
    }
}

/// A page of issues, and where the page lies in the whole result.
#[derive(Debug)]
pub struct Search {
    pub expand: String,
    pub max_results: u64,
    pub start_at: u64,
    pub total: u64,
    pub issues: Vec<Issue>,
}

impl FromJson for Search {
    open spec fn rejects(raw: Seq<u8>) -> Option<DecodeError> {
        match record(raw) {
            Err(e) => Some(e),
            Ok(f) => required_rejects::<String>(raw, f, "expand")
                .otherwise(required_rejects::<u64>(raw, f, "maxResults"))
                .otherwise(required_rejects::<u64>(raw, f, "startAt"))
                .otherwise(required_rejects::<u64>(raw, f, "total"))
                .otherwise(required_rejects::<Vec<Issue>>(raw, f, "issues")),
        }
    }

    open spec fn holds(&self, raw: Seq<u8>) -> bool {
        match record(raw) {
            Err(_) => false,
            Ok(f) => {
                &&& required_holds(self.expand, raw, f, "expand")
                &&& required_holds(self.max_results, raw, f, "maxResults")
                &&& required_holds(self.start_at, raw, f, "startAt")
                &&& required_holds(self.total, raw, f, "total")
                &&& required_holds(self.issues, raw, f, "issues")
            },
        }
    }

    fn from_json(raw: &[u8]) -> (r: Result<Self, DecodeError>) {
        let object = Object::parse(raw)?;
        let expand: String = object.required("expand")?;
        let max_results: u64 = object.required("maxResults")?;
        let start_at: u64 = object.required("startAt")?;
        let total: u64 = object.required("total")?;
        let issues: Vec<Issue> = object.required("issues")?;
        Ok(Search { expand, max_results, start_at, total, issues })
    }
}

} // verus!
