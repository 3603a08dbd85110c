//! How an HTTP status of the Sonar API is read, and the errors that come of it.

use vstd::prelude::*;
use crate::sonar::types::SonarError;
use crate::text::{joined3, owned};

verus! {

/// What to do with a response of the Sonar API.
#[derive(Clone, Copy, Debug, PartialEq, Eq, Structural)]
pub enum StatusOutcome {
    /// Go on: read the body, or take the write as done.
    Proceed,
    /// The path is not served (404 or 405): the API changed.
    Unsupported,
    /// Another client or server error (400 to 599): a transport failure.
    Failed,
}

/// A client or server error status.
pub open spec fn is_error_status(code: u16) -> bool {
    400 <= code <= 599
}

/// How a `GET` answered with this status goes on.
pub fn query_status(code: u16) -> (outcome: StatusOutcome)
    ensures
        outcome == (if code == 404 || code == 405 {
            StatusOutcome::Unsupported
        } else if is_error_status(code) {
            StatusOutcome::Failed
        } else {
            StatusOutcome::Proceed
        }),
{
    if code == 404 || code == 405 {
        StatusOutcome::Unsupported
    } else if 400 <= code && code <= 599 {
        StatusOutcome::Failed
    } else {
        StatusOutcome::Proceed
    }
}

/// How a direct write of Master - Personal answered with this status goes on.
pub fn master_write_status(code: u16) -> (outcome: StatusOutcome)
    ensures
        outcome == (if 200 <= code <= 299 {
            StatusOutcome::Proceed
        } else if code == 404 || code == 405 {
            StatusOutcome::Unsupported
        } else if is_error_status(code) {
            StatusOutcome::Failed
        } else {
            StatusOutcome::Proceed
        }),
{
    if 200 <= code && code <= 299 {
        StatusOutcome::Proceed
    } else if code == 404 || code == 405 {
        StatusOutcome::Unsupported
    } else if 400 <= code && code <= 599 {
        StatusOutcome::Failed
    } else {
        StatusOutcome::Proceed
    }
}

/// How a change of a redirection answered with this status goes on.
pub fn redirect_status(code: u16) -> (outcome: StatusOutcome)
    ensures
        outcome == (if is_error_status(code) { StatusOutcome::Failed } else { StatusOutcome::Proceed }),
{
    if 400 <= code && code <= 599 {
        StatusOutcome::Failed
    } else {
        StatusOutcome::Proceed
    }
}

/// The error for a `GET` path that Sonar does not serve; `status` is the
/// status as HTTP writes it, such as `404 Not Found`.
pub fn unsupported_query_error(status: &str) -> (error: SonarError)
    ensures
        error matches SonarError::ApiChanged(detail)
            && detail@ == "Sonar가 필요한 조회 경로를 지원하지 않습니다 ("@ + status@ + ")"@,
{
    SonarError::ApiChanged(joined3("Sonar가 필요한 조회 경로를 지원하지 않습니다 (", status, ")"))
}

/// The error for a Master - Personal write path that Sonar does not serve.
pub fn unsupported_master_write_error(status: &str) -> (error: SonarError)
    ensures
        error matches SonarError::ApiChanged(detail)
            && detail@ == "Sonar가 Master - Personal 변경 경로를 지원하지 않습니다 ("@ + status@ + ")"@,
{
    SonarError::ApiChanged(joined3("Sonar가 Master - Personal 변경 경로를 지원하지 않습니다 (", status, ")"))
}

/// The error a `GET` answered with this status ends in, if any: `status` is
/// the status as HTTP writes it, `failure` the transport's text for an
/// error status.
pub fn query_failure(code: u16, status: &str, failure: &str) -> (error: Option<SonarError>)
    ensures
        code == 404 || code == 405 ==> (error matches Some(SonarError::ApiChanged(detail))
            && detail@ == "Sonar가 필요한 조회 경로를 지원하지 않습니다 ("@ + status@ + ")"@),
        !(code == 404 || code == 405) && is_error_status(code) ==> (error matches Some(SonarError::Transport(detail))
            && detail@ == failure@),
        !(code == 404 || code == 405) && !is_error_status(code) ==> error is None,
{
    match query_status(code) {
        StatusOutcome::Unsupported => Some(unsupported_query_error(status)),
        StatusOutcome::Failed => Some(SonarError::Transport(owned(failure))),
        StatusOutcome::Proceed => None,
    }
}

/// The error a direct write of Master - Personal answered with this status
/// ends in, if any.
pub fn master_write_failure(code: u16, status: &str, failure: &str) -> (error: Option<SonarError>)
    ensures
        200 <= code <= 299 ==> error is None,
        !(200 <= code <= 299) && (code == 404 || code == 405) ==> (error matches Some(SonarError::ApiChanged(detail))
            && detail@ == "Sonar가 Master - Personal 변경 경로를 지원하지 않습니다 ("@ + status@ + ")"@),
        !(200 <= code <= 299) && !(code == 404 || code == 405) && is_error_status(code)
            ==> (error matches Some(SonarError::Transport(detail)) && detail@ == failure@),
        !(200 <= code <= 299) && !(code == 404 || code == 405) && !is_error_status(code) ==> error is None,
{
    match master_write_status(code) {
        StatusOutcome::Unsupported => Some(unsupported_master_write_error(status)),
        StatusOutcome::Failed => Some(SonarError::Transport(owned(failure))),
        StatusOutcome::Proceed => None,
    }
}

/// The error a change of a redirection answered with this status ends in,
/// if any.
pub fn redirect_failure(code: u16, failure: &str) -> (error: Option<SonarError>)
    ensures
        is_error_status(code) ==> (error matches Some(SonarError::Transport(detail)) && detail@ == failure@),
        !is_error_status(code) ==> error is None,
{
    match redirect_status(code) {
        StatusOutcome::Failed => Some(SonarError::Transport(owned(failure))),
        _ => None,
    }
}

/// The error for a body that is not what the query expects.
pub fn malformed_reply_error() -> (error: SonarError)
    ensures
        error matches SonarError::ApiChanged(detail) && detail@ == "Sonar 응답 형식이 예상과 다릅니다"@,
{
    SonarError::ApiChanged(owned("Sonar 응답 형식이 예상과 다릅니다"))
}

} // verus!
