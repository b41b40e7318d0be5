//! Credential lifecycle management for an OAuth 2.0 protected API.
//!
//! The heart of the crate is [`auth::Authenticator`]: it owns the cached
//! bearer credential and the optional long-lived refresh credential, and
//! decides, step by step, how a new bearer credential is acquired.  The
//! network exchanges and the operator prompt are suspension points that the
//! surrounding program performs; every decision between them is made here
//! and verified.

use vstd::prelude::*;

pub mod auth;
pub mod codes;
pub mod error;
pub mod request;
pub mod tweets;

pub use auth::Authenticator;
pub use error::Error;
pub use request::ApiError;
pub use request::ApiResponse;
pub use tweets::ApiTweet;
pub use tweets::TweetData;
pub use tweets::TweetObject;
pub use tweets::TweetRequest;

verus! {

/// Client state for the downstream API: the credential manager that the
/// verified request protocol of [`request`] revolves around.  The HTTP
/// transport lives with the collaborator that performs the calls.
pub struct Api {
    /// The credential lifecycle manager for this client.
    pub authenticator: Authenticator,
}

impl Api {
    /// Creates a client whose manager starts with an empty credential slot
    /// and the refresh credential handed in by the configuration
    /// collaborator.
    pub fn new(refresh_token: Option<String>) -> (r: Api)
        ensures
            r.authenticator.is_empty_state(),
            r.authenticator.refresh_credential() == refresh_token,
    {
        Api { authenticator: Authenticator::new(refresh_token) }
    }
}

/// The outcome of one token-endpoint exchange, as reported back by the
/// environment that performed the network call.
pub enum ExchangeOutcome {
    /// The authorization server granted a new bearer credential, possibly
    /// together with a rotated refresh credential.
    Granted(TokenGrant),
    /// The authorization server rejected the exchange, or the exchange
    /// could not be carried out at all.
    Rejected,
}

/// What a successful token-endpoint exchange handed back.
pub struct TokenGrant {
    /// The new bearer credential.
    pub bearer: String,
    /// A rotated refresh credential, when the server issued one.  It must be
    /// surfaced to the persistence collaborator, never dropped silently.
    pub rotated_refresh: Option<String>,
}

} // verus!
