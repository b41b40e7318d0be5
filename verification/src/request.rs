//! Classification of downstream responses and the single-retry protocol.

use vstd::prelude::*;

use crate::error::Error;

verus! {

/// Structured error body that the downstream API returns on failure.
#[derive(Debug)]
pub struct ApiError {
    /// Detailed description of the error that occurred.
    pub detail: String,
    /// HTTP status code associated with the error.
    pub status: u32,
    /// Brief title or category of the error.
    pub title: String,
    /// URI reference identifying the error kind.
    pub kind: String,
}

/// Response wrapper that can contain either successful data or API error
/// information.
#[derive(Debug)]
pub enum ApiResponse<T> {
    /// Successful response containing the requested data.
    Success(T),
    /// Error response containing API error details.
    Failure(ApiError),
}

/// What the protocol directs after one response has come back.
#[derive(Debug)]
pub enum RequestStep {
    /// Force-refresh the credential and retry the same call, once.
    Retry,
    /// The call is settled: the body of a successful response, or the
    /// error this response classifies as.
    Settled(Result<String, Error>),
}

/// Whether an HTTP status reports success.
pub open spec fn spec_is_success(status: u16) -> bool {
    200 <= status < 300
}

/// Whether an HTTP status reports success (the conventional 2xx range).
pub fn is_success(status: u16) -> (r: bool)
    ensures
        r == spec_is_success(status),
{
    200 <= status && status < 300
}

/// How one downstream response is classified: 401 is an authentication
/// failure, 429 a throttle, success hands the body through, and any other
/// status is the structured API error when the body parsed as one, else an
/// opaque error carrying status and raw body.
pub open spec fn spec_classification(
    status: u16,
    body: String,
    parsed: Option<ApiError>,
) -> Result<String, Error> {
    if status == 401 {
        Err(Error::Unauthorized)
    } else if status == 429 {
        Err(Error::RateLimited)
    } else if spec_is_success(status) {
        Ok(body)
    } else {
        match parsed {
            Some(e) => Err(Error::Api(e)),
            None => Err(Error::Opaque { status, body }),
        }
    }
}

/// Classifies one downstream response.  `parsed` is the body read as the
/// structured error schema, handed in by the collaborator that carried out
/// the call; it only matters on a non-success status other than 401
/// and 429.
pub fn handle_response(status: u16, body: String, parsed: Option<ApiError>) -> (r: Result<
    String,
    Error,
>)
    ensures
        r == spec_classification(status, body, parsed),
{
    if status == 401 {
        Err(Error::Unauthorized)
    } else if status == 429 {
        Err(Error::RateLimited)
    } else if is_success(status) {
        Ok(body)
    } else {
        match parsed {
            Some(e) => Err(Error::Api(e)),
            None => Err(Error::Opaque { status, body }),
        }
    }
}

/// What the single-retry protocol directs for the response of attempt
/// number `attempt`: an authentication failure on the first attempt is
/// retried once after a forced refresh; everything else settles as the
/// response classifies.
pub open spec fn spec_execute_step(
    attempt: u8,
    status: u16,
    body: String,
    parsed: Option<ApiError>,
) -> RequestStep {
    if attempt == 0 && status == 401 {
        RequestStep::Retry
    } else {
        RequestStep::Settled(spec_classification(status, body, parsed))
    }
}

/// One step of the single-retry protocol, run by the collaborator that
/// performs the outbound calls: it sends attempt `attempt` (counting from
/// zero), hands the response in here, and either retries once with a
/// force-refreshed credential or returns the settled result.
pub fn execute_step(attempt: u8, status: u16, body: String, parsed: Option<ApiError>) -> (r:
    RequestStep)
    ensures
        r == spec_execute_step(attempt, status, body, parsed),
{
    if attempt == 0 && status == 401 {
        RequestStep::Retry
    } else {
        RequestStep::Settled(handle_response(status, body, parsed))
    }
}

/// Law: the retry budget is one extra attempt.  Only the first attempt can
/// be directed to retry; from the second attempt on, every response
/// settles — a 401 then settles as [`Error::Unauthorized`] — so a third
/// attempt is never directed.
pub proof fn lemma_retry_budget(attempt: u8, status: u16, body: String, parsed: Option<ApiError>)
    requires
        attempt >= 1,
    ensures
        spec_execute_step(attempt, status, body, parsed) != RequestStep::Retry,
        status == 401 ==> spec_execute_step(attempt, status, body, parsed)
            == RequestStep::Settled(Err(Error::Unauthorized)),
{
}

} // verus!
