//! The terminal stage of every request that failed: one status, one
//! client-safe body and one log event per failure.
use vstd::prelude::*;
use crate::digits::parse_failure_text;
use crate::error::{error_text, DbFailure, Error};
use crate::text::same_text;

verus! {

/// How loudly a failure is logged: `Error` where the service is at fault,
/// `Warn` where the client is (or asked for something that is not there).
#[derive(Debug, Clone, Copy, PartialEq, Eq, Structural)]
pub enum Severity {
    Error,
    Warn,
}

/// Whatever failure reached the end of the pipeline: one of the service's
/// own, or one that the HTTP layer raised itself.
#[derive(Debug, Clone, PartialEq, Eq)]
pub enum Rejection {
    Custom(Error),
    CorsForbidden(String),
    BodyDeserialize(String),
    NotFound,
}

/// The rendered failure: status and body for the client, severity and text
/// for the one log event.
#[derive(Debug, Clone, PartialEq, Eq)]
pub struct Response {
    pub status: u16,
    pub body: String,
    pub level: Severity,
    pub log: String,
}

/// The database code of a uniqueness violation (PostgreSQL `unique_violation`).
pub open spec fn is_unique_violation(f: DbFailure) -> bool {
    f.code matches Some(c) && c@ == "23505"@
}

/// The status that a failure of the service renders with.
pub open spec fn error_status(e: Error) -> u16 {
    match e {
        Error::QuestionNotFound | Error::AccountNotFound => 404,
        Error::DatabaseQueryError(_) => 422,
        Error::ReqwestAPIError(_)
        | Error::ReqwestMiddlewareAPIError(_)
        | Error::ClientError(_)
        | Error::ServerError(_)
        | Error::CannotIssueToken => 500,
        Error::Unauthorized => 403,
        _ => 416,
    }
}

/// The client-safe text of a failure of the service: fixed wording, except
/// that a parse failure echoes the reader's message.
pub open spec fn error_body(e: Error) -> Seq<char> {
    match e {
        Error::ParseError(f) => "Parse error: "@ + parse_failure_text(f),
        Error::MissingParameters => "Missing parameter"@,
        Error::QuestionNotFound => "Question not found"@,
        Error::AccountNotFound => "Account not found"@,
        Error::DatabaseQueryError(f) => if is_unique_violation(f) {
            "Account already exists"@
        } else {
            "Cannot update data"@
        },
        Error::ReqwestAPIError(_)
        | Error::ReqwestMiddlewareAPIError(_)
        | Error::ClientError(_)
        | Error::ServerError(_)
        | Error::CannotIssueToken => "Internal Server Error"@,
        Error::ArgonLibraryError(_) => "Cannot verify password"@,
        Error::PasswordTooLong => "Password is too long"@,
        Error::WrongPasswordError => "WrongPassword"@,
        Error::CannotDecryptToken => "Cannot decrypt token"@,
        Error::Unauthorized => "No permission to change the underlying resource"@,
    }
}

/// Whether the service, not the client, is at fault.
pub open spec fn is_server_fault(e: Error) -> bool {
    match e {
        Error::DatabaseQueryError(_)
        | Error::ReqwestAPIError(_)
        | Error::ReqwestMiddlewareAPIError(_)
        | Error::ClientError(_)
        | Error::ServerError(_)
        | Error::ArgonLibraryError(_)
        | Error::CannotIssueToken => true,
        _ => false,
    }
}

pub open spec fn status_of(r: Rejection) -> u16 {
    match r {
        Rejection::Custom(e) => error_status(e),
        Rejection::CorsForbidden(_) => 403,
        Rejection::BodyDeserialize(_) => 422,
        Rejection::NotFound => 404,
    }
}

pub open spec fn body_of(r: Rejection) -> Seq<char> {
    match r {
        Rejection::Custom(e) => error_body(e),
        Rejection::CorsForbidden(m) => m@,
        Rejection::BodyDeserialize(m) => m@,
        Rejection::NotFound => "Route not found"@,
    }
}

pub open spec fn level_of(r: Rejection) -> Severity {
    match r {
        Rejection::Custom(e) => if is_server_fault(e) {
            Severity::Error
        } else {
            Severity::Warn
        },
        _ => Severity::Warn,
    }
}

pub open spec fn log_of(r: Rejection) -> Seq<char> {
    match r {
        Rejection::Custom(e) => error_text(e),
        Rejection::CorsForbidden(m) => "CORS forbidden error "@ + m@,
        Rejection::BodyDeserialize(m) => "Cannot deserialize request body "@ + m@,
        Rejection::NotFound => "Requested route was not found"@,
    }
}

/// Whether a persistence failure is a uniqueness violation.
pub fn unique_violation(f: &DbFailure) -> (r: bool)
    ensures
        r == is_unique_violation(*f),
{
    match &f.code {
        Some(c) => same_text(c.as_str(), "23505"),
        None => false,
    }
}

/// The status of a failure of the service.
pub fn status_for(e: &Error) -> (r: u16)
    ensures
        r == error_status(*e),
{
    match e {
        Error::QuestionNotFound | Error::AccountNotFound => 404,
        Error::DatabaseQueryError(_) => 422,
        Error::ReqwestAPIError(_)
        | Error::ReqwestMiddlewareAPIError(_)
        | Error::ClientError(_)
        | Error::ServerError(_)
        | Error::CannotIssueToken => 500,
        Error::Unauthorized => 403,
        _ => 416,
    }
}

/// The client-safe text of a failure of the service.
pub fn body_for(e: &Error) -> (r: String)
    ensures
        r@ == error_body(*e),
{
    match e {
        Error::ParseError(f) => {
            let mut out = String::from_str("Parse error: ");
            let m = f.message();
            out.append(m.as_str());
            out
        },
        Error::MissingParameters => String::from_str("Missing parameter"),
        Error::QuestionNotFound => String::from_str("Question not found"),
        Error::AccountNotFound => String::from_str("Account not found"),
        Error::DatabaseQueryError(f) => if unique_violation(f) {
            String::from_str("Account already exists")
        } else {
            String::from_str("Cannot update data")
        },
        Error::ReqwestAPIError(_)
        | Error::ReqwestMiddlewareAPIError(_)
        | Error::ClientError(_)
        | Error::ServerError(_)
        | Error::CannotIssueToken => String::from_str("Internal Server Error"),
        Error::ArgonLibraryError(_) => String::from_str("Cannot verify password"),
        Error::PasswordTooLong => String::from_str("Password is too long"),
        Error::WrongPasswordError => String::from_str("WrongPassword"),
        Error::CannotDecryptToken => String::from_str("Cannot decrypt token"),
        Error::Unauthorized => String::from_str("No permission to change the underlying resource"),
    }
}

/// Whether the service, not the client, is at fault.
pub fn server_fault(e: &Error) -> (r: bool)
    ensures
        r == is_server_fault(*e),
{
    match e {
        Error::DatabaseQueryError(_)
        | Error::ReqwestAPIError(_)
        | Error::ReqwestMiddlewareAPIError(_)
        | Error::ClientError(_)
        | Error::ServerError(_)
        | Error::ArgonLibraryError(_)
        | Error::CannotIssueToken => true,
        _ => false,
    }
}

/// Renders whatever failure reached the end of the pipeline.
pub fn return_error(rejection: &Rejection) -> (r: Response)
    ensures
        r.status == status_of(*rejection),
        r.body@ == body_of(*rejection),
        r.level == level_of(*rejection),
        r.log@ == log_of(*rejection),
{
    match rejection {
        Rejection::Custom(e) => Response {
            status: status_for(e),
            body: body_for(e),
            level: if server_fault(e) {
                Severity::Error
            } else {
                Severity::Warn
            },
            log: e.describe(),
        },
        Rejection::CorsForbidden(m) => {
            let mut log = String::from_str("CORS forbidden error ");
            log.append(m.as_str());
            Response { status: 403, body: m.clone(), level: Severity::Warn, log }
        },
        Rejection::BodyDeserialize(m) => {
            let mut log = String::from_str("Cannot deserialize request body ");
            log.append(m.as_str());
            Response { status: 422, body: m.clone(), level: Severity::Warn, log }
        },
        Rejection::NotFound => Response {
            status: 404,
            body: String::from_str("Route not found"),
            level: Severity::Warn,
            log: String::from_str("Requested route was not found"),
        },
    }
}

} // verus!
