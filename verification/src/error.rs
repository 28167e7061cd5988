//! The status of a statement and the errors of the client.

use vstd::prelude::*;
use vstd::string::StringExecFns;

verus! {

/// The error of the transport, `simplehttp::simplehttp::SimpleHttpError`. It is handed
/// on as it comes: nothing is stated of what it holds.
#[verifier::external_type_specification]
#[verifier::external_body]
pub struct ExSimpleHttpError(simplehttp::simplehttp::SimpleHttpError);

/// How the server reports the outcome of one statement.
#[derive(Debug, Clone, Copy, PartialEq, Eq, Structural)]
pub enum SurrealStatus {
    OK,
    ERR,
}

/// Where a JSON document departs from the shape of a reply envelope.
#[derive(Debug, Clone, Copy, PartialEq, Eq, Structural)]
pub enum ShapeFault {
    /// The document is not an array.
    NotAnArray,
    /// An element of the array is not an object.
    StatementNotAnObject,
    /// A statement has no `status`, or one that is neither `"OK"` nor `"ERR"`.
    BadStatus,
    /// A statement has a `result` that is neither an array nor `null`.
    BadResult,
}

/// Why a response could not be decoded.
#[derive(Debug)]
pub enum DecodeFailure {
    /// The body is no JSON text, or no record of the shape that the caller asked for.
    Json(serde_json::Error),
    /// The body is JSON, but no reply envelope.
    Shape(ShapeFault),
}

/// What can go wrong in an operation of the client.
#[derive(Debug)]
pub enum SurrealDbError {
    /// The envelope holds no statement, a statement holds no `result`, or a record no `id`.
    NoResult,
    /// The statement ran, and the server reports that it failed.
    NotOkStatus(SurrealStatus),
    /// A result is there and holds nothing, or a record's `id` is no string.
    EmptyResult,
    /// The transport failed. Holds what was asked for and the transport's error.
    ServerError(String, simplehttp::simplehttp::SimpleHttpError),
    /// The response could not be decoded. Holds what was asked for and the cause.
    Other(String, DecodeFailure),
}

/// A `SurrealDbError` with its context as a sequence of characters.
pub enum ErrorModel {
    NoResult,
    NotOkStatus(SurrealStatus),
    EmptyResult,
    ServerError(Seq<char>, simplehttp::simplehttp::SimpleHttpError),
    Other(Seq<char>, DecodeFailure),
}

impl View for SurrealDbError {
    type V = ErrorModel;

    open spec fn view(&self) -> ErrorModel {
        match self {
            SurrealDbError::NoResult => ErrorModel::NoResult,
            SurrealDbError::NotOkStatus(status) => ErrorModel::NotOkStatus(*status),
            SurrealDbError::EmptyResult => ErrorModel::EmptyResult,
            SurrealDbError::ServerError(context, cause) => {
                ErrorModel::ServerError(context@, *cause)
            },
            SurrealDbError::Other(context, cause) => ErrorModel::Other(context@, *cause),
        }
    }
}

impl ErrorModel {
    /// The one-line description of each kind of error.
    pub open spec fn message(self) -> Seq<char> {
        match self {
            ErrorModel::NoResult => "No result found"@,
            ErrorModel::NotOkStatus(_) => "Not-ok status"@,
            ErrorModel::EmptyResult => "Empty result"@,
            ErrorModel::ServerError(_, _) => "Server error"@,
            ErrorModel::Other(_, _) => "Other"@,
        }
    }
}

impl SurrealDbError {
    /// The one-line description of the error.
    pub fn message(&self) -> (text: String)
        ensures
            text@ == self@.message(),
    {
        match self {
            SurrealDbError::NoResult => String::from_str("No result found"),
            SurrealDbError::NotOkStatus(_) => String::from_str("Not-ok status"),
            SurrealDbError::EmptyResult => String::from_str("Empty result"),
            SurrealDbError::ServerError(_, _) => String::from_str("Server error"),
            SurrealDbError::Other(_, _) => String::from_str("Other"),
        }
    }
}

} // verus!
