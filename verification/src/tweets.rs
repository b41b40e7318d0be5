//! The one downstream endpoint this crate knows: posting a tweet.
//!
//! Endpoint payload shapes are plain data here; attaching the bearer
//! credential, serialising the payload and sending it are the surrounding
//! program's work, routed through the shared request protocol.

use vstd::prelude::*;

use crate::Api;

verus! {

/// Capability interface over the downstream endpoints: one method per
/// endpoint, each building the payload that the shared request protocol
/// then sends with the current bearer credential attached.
pub trait ApiTweet {
    /// Builds the payload for posting a tweet with the given text.
    fn tweet(&self, text: String) -> (r: TweetRequest)
        ensures
            r.text == text,
    ;
}

impl ApiTweet for Api {
    fn tweet(&self, text: String) -> TweetRequest {
        TweetRequest { text }
    }
}

/// Request payload for creating a new tweet.
pub struct TweetRequest {
    /// The text content of the tweet to be posted.
    pub text: String,
}

/// Response object containing tweet data from the API.
pub struct TweetObject {
    /// The actual tweet data returned by the API.
    pub data: TweetData,
}

/// Core tweet data structure containing tweet information.
pub struct TweetData {
    /// Unique identifier for the tweet.
    pub id: String,
    /// The text content of the tweet.
    pub text: String,
}

} // verus!
