//! The error type of the web layer and the HTTP answer each error gets.
use vstd::prelude::*;

use crate::error::AppError;
use crate::json::{entries_model, Json, JsonValue};
use crate::text::concat;

verus! {

/// Error type for the web layer.
///
/// Answers `{ "error": "<message>" }` so the browser `invoke()` shim can reject
/// its promise with a JS `Error` carrying the message.
#[derive(Debug)]
pub enum WebError {
    /// A domain-level failure from the shared services.
    Domain(AppError),
    /// The command exists in the desktop app but is not wired in the web
    /// dashboard yet. Answered with HTTP 501 so partial panels degrade gracefully.
    NotImplemented(String),
    /// The request was malformed (missing or invalid arguments).
    BadRequest(String),
}

impl From<AppError> for WebError {
    fn from(e: AppError) -> (r: WebError)
        ensures
            r == WebError::Domain(e),
    {
        WebError::Domain(e)
    }
}

impl vstd::std_specs::convert::FromSpecImpl<AppError> for WebError {
    open spec fn obeys_from_spec() -> bool {
        true
    }

    open spec fn from_spec(v: AppError) -> WebError {
        WebError::Domain(v)
    }
}

impl WebError {
    /// The HTTP status code the error is answered with.
    pub open spec fn spec_status(&self) -> u16 {
        match self {
            WebError::Domain(_) => 500,
            WebError::NotImplemented(_) => 501,
            WebError::BadRequest(_) => 400,
        }
    }

    /// The message the error is answered with.
    pub open spec fn spec_message(&self) -> Seq<char> {
        match self {
            WebError::Domain(e) => e.text(),
            WebError::NotImplemented(cmd) => "command '"@ + cmd@
                + "' is not implemented in the web prototype"@,
            WebError::BadRequest(m) => m@,
        }
    }

    /// The HTTP status code the error is answered with.
    pub fn status(&self) -> (r: u16)
        ensures
            r == self.spec_status(),
    {
        match self {
            WebError::Domain(_) => 500,
            WebError::NotImplemented(_) => 501,
            WebError::BadRequest(_) => 400,
        }
    }

    /// The message the error is answered with.
    pub fn message(&self) -> (r: String)
        ensures
            r@ == self.spec_message(),
    {
        match self {
            WebError::Domain(e) => String::from_str(e.message()),
            WebError::NotImplemented(cmd) => {
                let head = concat("command '", cmd.as_str());
                concat(head.as_str(), "' is not implemented in the web prototype")
            },
            WebError::BadRequest(m) => String::from_str(m.as_str()),
        }
    }

    /// The JSON body of the answer: `{ "error": message }`.
    pub fn body(&self) -> (r: JsonValue)
        ensures
            r@ == Json::Object(seq![("error"@, Json::Str(self.spec_message()))]),
    {
        let mut entries: Vec<(String, JsonValue)> = Vec::new();
        entries.push((String::from_str("error"), JsonValue::String(self.message())));
        proof {
            crate::json::lemma_object_model(entries);
            assert(entries_model(entries@) =~= seq![("error"@, Json::Str(self.spec_message()))]);
        }
        JsonValue::Object(entries)
    }
}

} // verus!
