//! The reference to an issue that was just created.

use crate::decode::{FromJson, Reasons};
use crate::error::DecodeError;
use crate::id::Id;
use crate::models::common::NestedResponse;
use crate::object::{
    id_holds, optional_holds, optional_rejects, record, required_holds, required_rejects, Object,
};
use vstd::prelude::*;

verus! {

/// The answer to a request that created an issue: the text of the
/// response, and the `Created` that was read from it.
///
/// The text cannot be changed while the handle lives. A caller borrows
/// the decoded value, or gives the handle up to get the text back.
#[derive(Debug)]
pub struct CreatedHandle {
    store: Vec<u8>,
    created: Created,
}

impl CreatedHandle {
    #[verifier::type_invariant]
    spec fn wf(self) -> bool {
        self.created.holds(self.store@)
    }

    /// The text that the handle owns.
    pub closed spec fn store(&self) -> Seq<u8> {
        self.store@
    }

    /// The value that `data` lends.
    pub closed spec fn view(&self) -> Created {
        self.created
    }

    /// Reads the response once. On any error there is no handle, and the
    /// text is dropped.
    pub fn try_new(store: Vec<u8>) -> (r: Result<Self, DecodeError>)
        ensures
            match r {
                Ok(h) => Created::rejects(store@) is None && h.store() == store@ && h@.holds(
                    store@,
                ),
                Err(e) => Created::rejects(store@) == Some(e),
            },
    {
        let created = Created::from_json(store.as_slice())?;
        Ok(CreatedHandle { store, created })
    }

    /// The decoded response.
    pub fn data(&self) -> (r: &Created)
        ensures
            *r == self@,
            r.holds(self.store()),
    {
        proof {
            use_type_invariant(self);
        }
        &self.created
    }

    /// The text of the response.
    pub fn raw(&self) -> (r: &[u8])
        ensures
            r@ == self.store(),
    {
        self.store.as_slice()
    }

    /// Ends the handle and gives back the text it was made from,
    /// unchanged.
    pub fn into_inner(self) -> (r: Vec<u8>)
        ensures
            r@ == self.store(),
    {
        self.store
    }
}

/// What the tracker says of an issue that it created. `transition` is there
/// only where the request asked for one.
#[derive(Debug, Clone)]
pub struct Created {
    pub id: u64,
    pub key: String,
    pub self_link: String,
    pub transition: Option<NestedResponse>,
}

impl FromJson for Created {
    open spec fn rejects(raw: Seq<u8>) -> Option<DecodeError> {
        match record(raw) {
            Err(e) => Some(e),
            Ok(f) => required_rejects::<Id>(raw, f, "id")
                .otherwise(required_rejects::<String>(raw, f, "key"))
                .otherwise(required_rejects::<String>(raw, f, "self"))
                .otherwise(optional_rejects::<NestedResponse>(raw, f, "transition")),
        }
    }

    open spec fn holds(&self, raw: Seq<u8>) -> bool {
        match record(raw) {
            Err(_) => false,
            Ok(f) => {
                &&& id_holds(self.id, raw, f, "id")
                &&& required_holds(self.key, raw, f, "key")
                &&& required_holds(self.self_link, raw, f, "self")
                &&& optional_holds(self.transition, raw, f, "transition")
            },
        }
    }

    fn from_json(raw: &[u8]) -> (r: Result<Self, DecodeError>) {
        let object = Object::parse(raw)?;
        let id = object.required_id("id")?;
        let key: String = object.required("key")?;
        let self_link: String = object.required("self")?;
        let transition: Option<NestedResponse> = object.optional("transition")?;
        Ok(Created { id, key, self_link, transition })
    }
}

} // verus!
