use qa_auth::digits::ParseIntFailure;
use qa_auth::error::{upstream_error, APILayerError, APIResponse, DbFailure, Error};
use qa_auth::rejection::{return_error, Rejection, Severity};

fn render(e: Error) -> (u16, String, Severity) {
    let r = return_error(&Rejection::Custom(e));
    (r.status, r.body, r.level)
}

fn db(code: Option<&str>) -> Error {
    Error::DatabaseQueryError(DbFailure {
        code: code.map(|c| c.to_string()),
        message: "duplicate key value violates unique constraint \"accounts_email_key\"".to_string(),
    })
}

#[test]
fn parse_failure_echoes_the_reader() {
    let r = render(Error::ParseError(ParseIntFailure::InvalidDigit));
    assert_eq!(r, (416, "Parse error: invalid digit found in string".to_string(), Severity::Warn));
}

#[test]
fn missing_parameters_render() {
    assert_eq!(render(Error::MissingParameters), (416, "Missing parameter".to_string(), Severity::Warn));
}

#[test]
fn not_found_kinds_render_404() {
    assert_eq!(render(Error::QuestionNotFound), (404, "Question not found".to_string(), Severity::Warn));
    assert_eq!(render(Error::AccountNotFound), (404, "Account not found".to_string(), Severity::Warn));
}

#[test]
fn uniqueness_violation_is_already_exists() {
    assert_eq!(render(db(Some("23505"))), (422, "Account already exists".to_string(), Severity::Error));
}

#[test]
fn other_database_failures_are_generic() {
    assert_eq!(render(db(Some("23503"))), (422, "Cannot update data".to_string(), Severity::Error));
    assert_eq!(render(db(None)), (422, "Cannot update data".to_string(), Severity::Error));
}

#[test]
fn database_detail_goes_to_the_log_only() {
    let r = return_error(&Rejection::Custom(db(Some("23505"))));
    assert!(r.log.contains("accounts_email_key"));
    assert!(!r.body.contains("accounts_email_key"));
}

#[test]
fn upstream_failures_are_internal_errors() {
    let api = APILayerError { status: 503, message: "down".to_string() };
    for e in [
        Error::ReqwestAPIError("timeout".to_string()),
        Error::ReqwestMiddlewareAPIError("retries exhausted".to_string()),
        Error::ClientError(api.clone()),
        Error::ServerError(api.clone()),
    ] {
        assert_eq!(render(e), (500, "Internal Server Error".to_string(), Severity::Error));
    }
    let r = return_error(&Rejection::Custom(Error::ServerError(api)));
    assert_eq!(r.log, "External Server error API error 503: down");
}

#[test]
fn credential_and_token_failures_render() {
    assert_eq!(render(Error::WrongPasswordError), (416, "WrongPassword".to_string(), Severity::Warn));
    assert_eq!(render(Error::CannotDecryptToken), (416, "Cannot decrypt token".to_string(), Severity::Warn));
    assert_eq!(render(Error::PasswordTooLong), (416, "Password is too long".to_string(), Severity::Warn));
    assert_eq!(
        render(Error::ArgonLibraryError("Decoding failed".to_string())),
        (416, "Cannot verify password".to_string(), Severity::Error)
    );
    assert_eq!(render(Error::CannotIssueToken), (500, "Internal Server Error".to_string(), Severity::Error));
    assert_eq!(
        render(Error::Unauthorized),
        (403, "No permission to change the underlying resource".to_string(), Severity::Warn)
    );
}

#[test]
fn framework_rejections_render() {
    let c = return_error(&Rejection::CorsForbidden("CORS request forbidden: origin not allowed".to_string()));
    assert_eq!((c.status, c.body.as_str()), (403, "CORS request forbidden: origin not allowed"));
    assert_eq!(c.log, "CORS forbidden error CORS request forbidden: origin not allowed");
    let b = return_error(&Rejection::BodyDeserialize("missing field `email`".to_string()));
    assert_eq!((b.status, b.body.as_str()), (422, "missing field `email`"));
    let n = return_error(&Rejection::NotFound);
    assert_eq!((n.status, n.body.as_str(), n.level), (404, "Route not found", Severity::Warn));
    assert_eq!(n.log, "Requested route was not found");
}

#[test]
fn describe_gives_the_full_text() {
    let a = APILayerError { status: 404, message: "no such endpoint".to_string() };
    assert_eq!(a.describe(), "API error 404: no such endpoint");
    assert_eq!(Error::ClientError(a).describe(), "External Client error API error 404: no such endpoint");
    assert_eq!(
        Error::ParseError(ParseIntFailure::Empty).describe(),
        "Parse error: cannot parse integer from empty string"
    );
    assert_eq!(Error::WrongPasswordError.describe(), "WrongPassword");
    assert_eq!(Error::ArgonLibraryError("Decoding failed".to_string()).describe(), "Cannot verify password Decoding failed");
}

#[test]
fn upstream_status_classes() {
    let body = || APIResponse { message: "m".to_string() };
    assert_eq!(
        upstream_error(404, body()),
        Error::ClientError(APILayerError { status: 404, message: "m".to_string() })
    );
    assert_eq!(
        upstream_error(400, body()),
        Error::ClientError(APILayerError { status: 400, message: "m".to_string() })
    );
    assert_eq!(
        upstream_error(500, body()),
        Error::ServerError(APILayerError { status: 500, message: "m".to_string() })
    );
    assert_eq!(
        upstream_error(302, body()),
        Error::ServerError(APILayerError { status: 302, message: "m".to_string() })
    );
}
