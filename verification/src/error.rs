//! Error kinds of the credential lifecycle and of the request protocol.

use vstd::prelude::*;

use crate::request::ApiError;

verus! {

/// Everything that can go wrong while acquiring a credential or while
/// classifying the response to one downstream call.
#[derive(Debug)]
pub enum Error {
    /// A refresh exchange was requested, but no refresh credential is
    /// configured on this manager.
    NoRefreshCredential,
    /// The authorization server rejected the refresh or code exchange, or
    /// the exchange could not be carried out.  Not retried internally.
    ExchangeRejected,
    /// The operator submitted an empty or whitespace-only authorization
    /// code.  Fatal for that interactive attempt.
    EmptyAuthorizationCode,
    /// The downstream call rejected the attached bearer credential.
    Unauthorized,
    /// The downstream call was throttled.
    RateLimited,
    /// The downstream call failed with a structured error body.
    Api(ApiError),
    /// The downstream call failed with a status this crate does not
    /// recognise; carries the status and the raw body.
    Opaque { status: u16, body: String },
}

} // verus!
