//! The response that says nothing.

use crate::decode::FromJson;
use crate::error::DecodeError;
use crate::object::{record, Object};
use vstd::prelude::*;

verus! {

/// An empty response: a JSON object without members.
#[derive(Debug, Clone, Copy)]
pub struct Empty;

impl FromJson for Empty {
    open spec fn rejects(raw: Seq<u8>) -> Option<DecodeError> {
        match record(raw) {
            Err(e) => Some(e),
            Ok(f) => if f.len() == 0 {
                None
            } else {
                Some(DecodeError::UnexpectedType(None))
            },
        }
    }

    open spec fn holds(&self, raw: Seq<u8>) -> bool {
        record(raw) matches Ok(f) && f.len() == 0
    }

    fn from_json(raw: &[u8]) -> (r: Result<Self, DecodeError>) {
        let object = Object::parse(raw)?;
        if object.len() == 0 {
            Ok(Empty)
        } else {
            Err(DecodeError::UnexpectedType(None))
        }
    }
}

} // verus!
