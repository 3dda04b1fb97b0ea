//! The library's error type, with a verified rendering of each variant's
//! human-readable message.
use vstd::prelude::*;

use crate::decimal::{dec_i64, dec_i64_string};

verus! {

/// Everything that can go wrong while looking up records, building the
/// entity store, or asking the policy engine for a decision. Variants that
/// report a problem inside an outside component carry that component's
/// message as plain text.
#[derive(Debug)]
pub enum Error {
    /// A lookup by id found no record; holds the id that was asked for.
    NoSuchRecord(String),
    /// An entity uid was not present; holds its rendered form.
    NoSuchEntity(String),
    /// The engine denied the request; holds the rendered diagnostics.
    AuthDenied(String),
    /// A task list did not contain the task with the given id.
    InvalidTaskId(String, i64),
    /// An internal conversion failed.
    Type,
    /// Reading an input failed; holds the rendered cause.
    IO(String),
    /// The policy text did not parse; holds the parser's message.
    Policy(String),
    /// An authorization request could not be built.
    Request(String),
    /// The schema text did not parse; holds the parser's message.
    Schema(String),
    /// The policies did not validate against the schema; holds the
    /// validator's messages.
    Validation(String),
}

impl Error {
    /// The message that `message` returns for this error.
    pub open spec fn spec_message(&self) -> Seq<char> {
        match self {
            Error::NoSuchRecord(s) => "No Such Record: "@ + s@,
            Error::NoSuchEntity(s) => "No Such Entity: "@ + s@,
            Error::AuthDenied(_) => "Authorization Denied"@,
            Error::InvalidTaskId(l, v) => "The list "@ + l@ + " does not contain a task with id "@
                + dec_i64(*v),
            Error::Type => "Internal Error"@,
            Error::IO(_) => "Internal Error"@,
            Error::Policy(s) => "Error Parsing PolicySet: "@ + s@,
            Error::Request(s) => "Error constructing authorization request: "@ + s@,
            Error::Schema(s) => "Error Parsing Schema: "@ + s@,
            Error::Validation(s) => "Validation Failed: "@ + s@,
        }
    }

    /// Renders the error as one human-readable line.
    pub fn message(&self) -> (r: String)
        ensures
            r@ == self.spec_message(),
    {
        match self {
            Error::NoSuchRecord(s) => "No Such Record: ".to_owned().concat(s.as_str()),
            Error::NoSuchEntity(s) => "No Such Entity: ".to_owned().concat(s.as_str()),
            Error::AuthDenied(_) => "Authorization Denied".to_owned(),
            Error::InvalidTaskId(l, v) => "The list ".to_owned().concat(l.as_str()).concat(
                " does not contain a task with id ",
            ).concat(dec_i64_string(*v).as_str()),
            Error::Type => "Internal Error".to_owned(),
            Error::IO(_) => "Internal Error".to_owned(),
            Error::Policy(s) => "Error Parsing PolicySet: ".to_owned().concat(s.as_str()),
            Error::Request(s) => "Error constructing authorization request: ".to_owned().concat(
                s.as_str(),
            ),
            Error::Schema(s) => "Error Parsing Schema: ".to_owned().concat(s.as_str()),
            Error::Validation(s) => "Validation Failed: ".to_owned().concat(s.as_str()),
        }
    }
}

} // verus!
