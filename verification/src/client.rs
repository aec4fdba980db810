//! What the client decides: who it acts for, and what an answer of the
//! tracker means.

use crate::decode::{FromJson, Reasons};
use crate::error::DecodeError;
use crate::json::null_token;
use crate::object::{record, required_holds, required_rejects, Object, Table};
use crate::text::{pieces, split_at, texts};
use vstd::prelude::*;
use vstd::string::StringExecFns;

verus! {

/// How the client identifies itself to the tracker.
#[derive(Debug, Clone)]
pub enum Authentication {
    /// A user name and a password.
    Basic(String, String),
}

impl Authentication {
    /// The user name.
    pub open spec fn user(self) -> Seq<char> {
        match self {
            Authentication::Basic(user, _) => user@,
        }
    }

    /// The password.
    pub open spec fn password(self) -> Seq<char> {
        match self {
            Authentication::Basic(_, password) => password@,
        }
    }

    /// Basic authentication with a user name and a password.
    pub fn basic(username: &str, password: &str) -> (r: Self)
        ensures
            r.user() == username@,
            r.password() == password@,
    {
        Authentication::Basic(String::from_str(username), String::from_str(password))
    }

    /// Reads credentials written as user name, colon, password. What
    /// follows a second colon is not part of the password. Without a
    /// colon there are no credentials.
    pub fn from_credentials(auth: &str) -> (r: Option<Self>)
        ensures
            match r {
                Some(found) => pieces(auth@, ':').len() >= 2 && found.user() == pieces(
                    auth@,
                    ':',
                )[0] && found.password() == pieces(auth@, ':')[1],
                None => pieces(auth@, ':').len() < 2,
            },
    {
        let parts = split_at(auth, ':');
        if parts.len() >= 2 {
            assert(texts(parts@)[0] == parts@[0]@);
            assert(texts(parts@)[1] == parts@[1]@);
            Some(Authentication::basic(parts[0], parts[1]))
        } else {
            None
        }
    }
}

/// The errors that the tracker reports when it refuses a request:
/// free-text messages, and messages by the name of the field that they
/// are about.
#[derive(Debug, Clone)]
pub struct ApiError {
    pub messages: Vec<String>,
    pub errors: Table<String>,
}

impl FromJson for ApiError {
    open spec fn rejects(raw: Seq<u8>) -> Option<DecodeError> {
        match record(raw) {
            Err(e) => Some(e),
            Ok(f) => required_rejects::<Vec<String>>(raw, f, "errorMessages")
                .otherwise(required_rejects::<Table<String>>(raw, f, "errors")),
        }
    }

    open spec fn holds(&self, raw: Seq<u8>) -> bool {
        match record(raw) {
            Err(_) => false,
            Ok(f) => {
                &&& required_holds(self.messages, raw, f, "errorMessages")
                &&& required_holds(self.errors, raw, f, "errors")
            },
        }
    }

    fn from_json(raw: &[u8]) -> (r: Result<Self, DecodeError>) {
        let object = Object::parse(raw)?;
        let messages: Vec<String> = object.required("errorMessages")?;
        let errors: Table<String> = object.required("errors")?;
        Ok(ApiError { messages, errors })
    }
}

/// A request that the tracker refused: the HTTP status, and the errors it
/// reported.
#[derive(Debug, Clone)]
pub struct ClientFault {
    pub code: u16,
    pub errors: ApiError,
}

/// Why an answer of the tracker gives no value.
#[derive(Debug, Clone)]
pub enum ResponseError {
    /// The tracker refused the request.
    Fault(ClientFault),
    /// The body of the answer does not decode.
    Decode(DecodeError),
}

/// The status is a client error or a server error.
pub open spec fn is_fault(code: u16) -> bool {
    400 <= code <= 599
}

/// The body that is decoded for a body that was sent: an empty body and
/// the body `null` stand for the empty object.
pub open spec fn effective_body(body: Seq<u8>) -> Seq<u8> {
    if body.len() == 0 || body == null_token() {
        seq![0x7bu8, 0x7du8]
    } else {
        body
    }
}

/// Whether the status is a client error or a server error.
pub fn status_is_fault(code: u16) -> (r: bool)
    ensures
        r == is_fault(code),
{
    400 <= code && code <= 599
}

/// Replaces an empty body and the body `null` by the empty object.
pub fn normalize_body(body: Vec<u8>) -> (r: Vec<u8>)
    ensures
        r@ == effective_body(body@),
{
    let is_null = body.len() == 4 && body[0] == 0x6e && body[1] == 0x75 && body[2] == 0x6c
        && body[3] == 0x6c;
    if body.len() == 0 || is_null {
        if is_null {
            assert(body@ =~= null_token());
        }
        let mut object: Vec<u8> = Vec::new();
        object.push(0x7b);
        object.push(0x7d);
        assert(object@ =~= seq![0x7bu8, 0x7du8]);
        object
    } else {
        body
    }
}

/// `r` is the body to decode for an answer with this status and body, or
/// the tracker's refusal: with a fault status the body is the tracker's
/// list of errors.
pub open spec fn accepts(r: Result<Vec<u8>, ResponseError>, code: u16, body: Seq<u8>) -> bool {
    match r {
        Ok(text) => !is_fault(code) && text@ == effective_body(body),
        Err(ResponseError::Fault(fault)) => is_fault(code) && fault.code == code
            && ApiError::rejects(body) is None && fault.errors.holds(body),
        Err(ResponseError::Decode(e)) => is_fault(code) && ApiError::rejects(body) == Some(e),
    }
}

/// Sorts an answer by its status: a refusal of the tracker, or a body to
/// decode.
pub fn accept(code: u16, body: Vec<u8>) -> (r: Result<Vec<u8>, ResponseError>)
    ensures
        accepts(r, code, body@),
{
    if status_is_fault(code) {
        match ApiError::from_json(body.as_slice()) {
            Ok(errors) => Err(ResponseError::Fault(ClientFault { code, errors })),
            Err(e) => Err(ResponseError::Decode(e)),
        }
    } else {
        Ok(normalize_body(body))
    }
}

/// `r` is what an answer with this status and body means: with a fault
/// status the body is the tracker's list of errors, and otherwise it is
/// the value asked for.
pub open spec fn answers<T: FromJson>(
    r: Result<T, ResponseError>,
    code: u16,
    body: Seq<u8>,
) -> bool {
    if is_fault(code) {
        match r {
            Ok(_) => false,
            Err(ResponseError::Fault(fault)) => fault.code == code && ApiError::rejects(body)
                is None && fault.errors.holds(body),
            Err(ResponseError::Decode(e)) => ApiError::rejects(body) == Some(e),
        }
    } else {
        match r {
            Ok(v) => T::rejects(effective_body(body)) is None && v.holds(effective_body(body)),
            Err(ResponseError::Fault(_)) => false,
            Err(ResponseError::Decode(e)) => T::rejects(effective_body(body)) == Some(e),
        }
    }
}

/// Reads the answer to a request from its status and its body.
pub fn retrieve<T: FromJson>(code: u16, body: Vec<u8>) -> (r: Result<T, ResponseError>)
    ensures
        answers(r, code, body@),
{
    let text = accept(code, body)?;
    match T::from_json(text.as_slice()) {
        Ok(value) => Ok(value),
        Err(e) => Err(ResponseError::Decode(e)),
    }
}

} // verus!
