//! How strictly the tracker checks the query of a search.

use crate::text::same_text;
use vstd::prelude::*;

verus! {

/// How strictly the tracker checks the query of a search.
#[derive(Debug, Clone, Copy, PartialEq, Eq)]
pub enum ValidateQuery {
    Strict,
    Warn,
    Off,
}

impl ValidateQuery {
    /// The name of the level on the wire.
    pub open spec fn name(self) -> Seq<char> {
        match self {
            ValidateQuery::Strict => "strict"@,
            ValidateQuery::Warn => "warn"@,
            ValidateQuery::Off => "none"@,
        }
    }

    /// Reads a level from its name: `strict`, `warn` or `none`, and
    /// nothing else.
    pub fn try_new(input: &str) -> (r: Option<Self>)
        ensures
            match r {
                Some(level) => input@ == level.name(),
                None => input@ != "strict"@ && input@ != "warn"@ && input@ != "none"@,
            },
    {
        if same_text(input, "strict") {
            Some(ValidateQuery::Strict)
        } else if same_text(input, "warn") {
            Some(ValidateQuery::Warn)
        } else if same_text(input, "none") {
            Some(ValidateQuery::Off)
        } else {
            None
        }
    }

    /// The name of the level on the wire.
    pub fn as_str(&self) -> (r: &'static str)
        ensures
            r@ == self.name(),
    {
        match self {
            ValidateQuery::Strict => "strict",
            ValidateQuery::Warn => "warn",
            ValidateQuery::Off => "none",
        }
    }
}

impl Default for ValidateQuery {
    fn default() -> (r: Self)
        ensures
            r == ValidateQuery::Strict,
    {
        ValidateQuery::Strict
    }
}

} // verus!
