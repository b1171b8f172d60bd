//! The closed set of failures that any stage of a request can end in.
use vstd::prelude::*;
use crate::digits::{decimal, parse_failure_text, push_decimal, ParseIntFailure};

verus! {

/// What a persistence failure tells about itself: the database's error
/// code, if it gave one, and its message (for the log only).
#[derive(Debug, Clone, PartialEq, Eq)]
pub struct DbFailure {
    pub code: Option<String>,
    pub message: String,
}

/// The error body that the moderation service sends with a failure status.
#[derive(Debug, Clone, PartialEq, Eq)]
pub struct APIResponse {
    pub message: String,
}

/// A failure reported by the moderation service: its status and message.
#[derive(Debug, Clone, PartialEq, Eq)]
pub struct APILayerError {
    pub status: u16,
    pub message: String,
}

/// Every failure kind of the service. Each is built where the failure
/// happens and travels unchanged to the rejection mapper.
#[derive(Debug, Clone, PartialEq, Eq)]
pub enum Error {
    ParseError(ParseIntFailure),
    MissingParameters,
    QuestionNotFound,
    AccountNotFound,
    DatabaseQueryError(DbFailure),
    ReqwestAPIError(String),
    ReqwestMiddlewareAPIError(String),
    ClientError(APILayerError),
    ServerError(APILayerError),
    ArgonLibraryError(String),
    PasswordTooLong,
    WrongPasswordError,
    CannotDecryptToken,
    CannotIssueToken,
    Unauthorized,
}

pub open spec fn api_error_text(e: APILayerError) -> Seq<char> {
    "API error "@ + decimal(e.status as nat) + ": "@ + e.message@
}

/// The full description of a failure, internals included: it goes to the
/// log, never to a client.
pub open spec fn error_text(e: Error) -> Seq<char> {
    match e {
        Error::ParseError(f) => "Parse error: "@ + parse_failure_text(f),
        Error::MissingParameters => "Missing parameter"@,
        Error::QuestionNotFound => "Question not found"@,
        Error::AccountNotFound => "Account not found"@,
        Error::DatabaseQueryError(f) => "Query could not be executed "@ + f.message@,
        Error::ReqwestAPIError(m) => "Reqwest error: "@ + m@,
        Error::ReqwestMiddlewareAPIError(m) => "Reqwest middleware error: "@ + m@,
        Error::ClientError(a) => "External Client error "@ + api_error_text(a),
        Error::ServerError(a) => "External Server error "@ + api_error_text(a),
        Error::ArgonLibraryError(m) => "Cannot verify password "@ + m@,
        Error::PasswordTooLong => "Password is too long"@,
        Error::WrongPasswordError => "WrongPassword"@,
        Error::CannotDecryptToken => "Cannot decrypt token"@,
        Error::CannotIssueToken => "Cannot issue token"@,
        Error::Unauthorized => "No permission to change the underlying resource"@,
    }
}

impl APILayerError {
    /// `API error <status>: <message>`.
    pub fn describe(&self) -> (r: String)
        ensures
            r@ == api_error_text(*self),
    {
        let mut out = String::from_str("API error ");
        push_decimal(&mut out, self.status as u64);
        out.append(": ");
        out.append(self.message.as_str());
        out
    }
}

impl Error {
    /// The full description of the failure, for the log.
    pub fn describe(&self) -> (r: String)
        ensures
            r@ == error_text(*self),
    {
        match self {
            Error::ParseError(f) => {
                let mut out = String::from_str("Parse error: ");
                let m = f.message();
                out.append(m.as_str());
                out
            },
            Error::MissingParameters => String::from_str("Missing parameter"),
            Error::QuestionNotFound => String::from_str("Question not found"),
            Error::AccountNotFound => String::from_str("Account not found"),
            Error::DatabaseQueryError(f) => {
                let mut out = String::from_str("Query could not be executed ");
                out.append(f.message.as_str());
                out
            },
            Error::ReqwestAPIError(m) => {
                let mut out = String::from_str("Reqwest error: ");
                out.append(m.as_str());
                out
            },
            Error::ReqwestMiddlewareAPIError(m) => {
                let mut out = String::from_str("Reqwest middleware error: ");
                out.append(m.as_str());
                out
            },
            Error::ClientError(a) => {
                let mut out = String::from_str("External Client error ");
                let d = a.describe();
                out.append(d.as_str());
                out
            },
            Error::ServerError(a) => {
                let mut out = String::from_str("External Server error ");
                let d = a.describe();
                out.append(d.as_str());
                out
            },
            Error::ArgonLibraryError(m) => {
                let mut out = String::from_str("Cannot verify password ");
                out.append(m.as_str());
                out
            },
            Error::PasswordTooLong => String::from_str("Password is too long"),
            Error::WrongPasswordError => String::from_str("WrongPassword"),
            Error::CannotDecryptToken => String::from_str("Cannot decrypt token"),
            Error::CannotIssueToken => String::from_str("Cannot issue token"),
            Error::Unauthorized => String::from_str(
                "No permission to change the underlying resource",
            ),
        }
    }
}

/// The failure that a non-success status of the moderation service stands
/// for: a client error for a 4xx status, a server error for any other.
pub open spec fn upstream_error_spec(status: u16, body: APIResponse) -> Error {
    let e = APILayerError { status, message: body.message };
    if 400 <= status && status < 500 {
        Error::ClientError(e)
    } else {
        Error::ServerError(e)
    }
}

/// Classifies a failed response of the moderation service.
pub fn upstream_error(status: u16, body: APIResponse) -> (r: Error)
    requires
        !(200 <= status && status < 300),
    ensures
        r == upstream_error_spec(status, body),
{
    let e = APILayerError { status, message: body.message };
    if 400 <= status && status < 500 {
        Error::ClientError(e)
    } else {
        Error::ServerError(e)
    }
}

} // verus!
