//! The credential lifecycle manager.
//!
//! [`Authenticator`] owns the single cached bearer credential and the
//! optional long-lived refresh credential.  Network exchanges against the
//! token endpoint and the operator prompt are suspension points performed by
//! the surrounding program; every decision between them is a verified method
//! here, so the whole acquisition protocol — try the cache, else refresh,
//! else the interactive exchange — is pinned down by contracts.
//!
//! Exclusive access: the methods that transition the credential slot take
//! `&mut self`.  A driver must hold its manager behind one exclusive-access
//! scope (a lock, or a single owning task), so that at most one acquisition
//! flow is in flight per manager instance; concurrent callers then serialize
//! on the first to arrive and observe its cached result afterwards.

use vstd::prelude::*;

use crate::codes::blank;
use crate::codes::trim_spaces;
use crate::codes::trimmed;
use crate::error::Error;
use crate::ExchangeOutcome;
use crate::TokenGrant;

verus! {

/// Owns the cached bearer credential and the optional long-lived refresh
/// credential, and makes every decision of the acquisition protocol.
pub struct Authenticator {
    /// Long-lived refresh credential, fixed at construction.
    refresh_token: Option<String>,
    /// The single cached bearer credential slot.
    bearer_token: Option<String>,
}

/// The first move of the acquisition protocol: which exchange the driver
/// must attempt.  There is no internal retry beyond the refresh-then-
/// interactive fallback this type expresses.
pub enum AcquireAction {
    /// Attempt the refresh-token grant with this refresh credential; if the
    /// server rejects it, fall back to the interactive exchange.
    Refresh(String),
    /// No refresh credential is configured: run the interactive exchange
    /// directly.
    Interactive,
}

/// The PKCE material for one interactive exchange: the challenge goes into
/// the authorization URL, the verifier into the later code exchange.
pub struct InteractiveExchange {
    /// Base64url-encoded SHA-256 digest of the verifier (method `S256`).
    pub challenge: String,
    /// The randomly generated PKCE code verifier.
    pub verifier: String,
}

/// The manager's state change when the cached credential is cleared: the
/// slot ends empty and the refresh credential is untouched.
pub open spec fn clears_cache(pre: Authenticator, post: Authenticator) -> bool {
    &&& post.is_empty_state()
    &&& post.refresh_credential() == pre.refresh_credential()
}

/// The manager's state change when a granted credential is cached: the slot
/// holds exactly the granted bearer and the refresh credential is untouched.
pub open spec fn caches_grant(pre: Authenticator, post: Authenticator, g: TokenGrant) -> bool {
    &&& post.cached() == Some(g.bearer)
    &&& post.refresh_credential() == pre.refresh_credential()
}

impl Authenticator {
    /// The cached bearer credential, if any.
    pub closed spec fn cached(&self) -> Option<String> {
        self.bearer_token
    }

    /// The configured refresh credential, if any.
    pub closed spec fn refresh_credential(&self) -> Option<String> {
        self.refresh_token
    }

    /// No bearer credential is cached.
    pub open spec fn is_empty_state(&self) -> bool {
        self.cached() is None
    }

    /// A bearer credential is cached.
    pub open spec fn is_cached_state(&self) -> bool {
        self.cached() is Some
    }

    /// Creates a manager with an empty credential slot and the refresh
    /// credential handed in by the configuration collaborator.
    pub fn new(refresh_token: Option<String>) -> (r: Authenticator)
        ensures
            r.is_empty_state(),
            r.refresh_credential() == refresh_token,
    {
        Authenticator { refresh_token, bearer_token: None }
    }

    /// The read step of `authenticate`: returns the cached bearer
    /// credential, and `None` when the slot is empty, in which case — and
    /// only then — the driver must run the acquisition protocol under
    /// exclusive access.  Never transitions the state and never directs a
    /// network call.
    pub fn authenticate(&self) -> (r: Option<String>)
        ensures
            r == self.cached(),
    {
        match &self.bearer_token {
            Some(bearer) => Some(bearer.clone()),
            None => None,
        }
    }

    /// The opening decision of the acquisition protocol: refresh when a
    /// refresh credential is configured, otherwise go interactive.
    pub fn request_bearer(&self) -> (r: AcquireAction)
        ensures
            match self.refresh_credential() {
                Some(rt) => r == AcquireAction::Refresh(rt),
                None => r == AcquireAction::Interactive,
            },
    {
        match &self.refresh_token {
            Some(rt) => AcquireAction::Refresh(rt.clone()),
            None => AcquireAction::Interactive,
        }
    }

    /// The refresh step on its own: the credential to send to the token
    /// endpoint, or [`Error::NoRefreshCredential`] exactly when none is
    /// configured.
    pub fn refresh_bearer_token(&self) -> (r: Result<String, Error>)
        ensures
            match self.refresh_credential() {
                Some(rt) => r == Ok::<String, Error>(rt),
                None => r == Err::<String, Error>(Error::NoRefreshCredential),
            },
    {
        match &self.refresh_token {
            Some(rt) => Ok(rt.clone()),
            None => Err(Error::NoRefreshCredential),
        }
    }

    /// Completes one exchange attempt.  A granted credential is cached
    /// before it is returned, together with any rotated refresh credential,
    /// which the caller must surface to the persistence collaborator.  A
    /// rejected exchange changes nothing and surfaces
    /// [`Error::ExchangeRejected`].
    pub fn refresh_and_cache(&mut self, outcome: ExchangeOutcome) -> (r: Result<TokenGrant, Error>)
        ensures
            match outcome {
                ExchangeOutcome::Granted(g) => {
                    &&& caches_grant(*old(self), *final(self), g)
                    &&& r == Ok::<TokenGrant, Error>(g)
                },
                ExchangeOutcome::Rejected => {
                    &&& *final(self) == *old(self)
                    &&& r == Err::<TokenGrant, Error>(Error::ExchangeRejected)
                },
            },
    {
        match outcome {
            ExchangeOutcome::Granted(g) => {
                self.bearer_token = Some(g.bearer.clone());
                Ok(g)
            },
            ExchangeOutcome::Rejected => Err(Error::ExchangeRejected),
        }
    }

    /// Begins the interactive exchange: generates the PKCE material for
    /// this one attempt.  The driver builds the authorization URL from the
    /// challenge and the scopes of [`required_scopes`], presents it to the
    /// operator, and hands the operator's line to
    /// [`Authenticator::submit_authorization_code`].
    pub fn interactive_flow(&self) -> (r: InteractiveExchange)
        ensures
            r.challenge@.len() == 43,
            r.verifier@.len() == 43,
    {
        let (challenge, verifier) = new_pkce_pair();
        InteractiveExchange { challenge, verifier }
    }

    /// Accepts the operator's authorization-code line for the interactive
    /// exchange.  Returns the code with surrounding whitespace removed, or
    /// [`Error::EmptyAuthorizationCode`] exactly when the line is empty or
    /// whitespace-only — in that case the driver must not contact the token
    /// endpoint with this attempt.
    pub fn submit_authorization_code(&self, line: &str) -> (r: Result<String, Error>)
        ensures
            match r {
                Ok(code) => {
                    &&& !blank(line@)
                    &&& code@ == trimmed(line@)
                    &&& code@.len() > 0
                },
                Err(e) => {
                    &&& blank(line@)
                    &&& e == Error::EmptyAuthorizationCode
                },
            },
    {
        let code = trim_spaces(line);
        if code.as_str().is_empty() {
            Err(Error::EmptyAuthorizationCode)
        } else {
            Ok(code)
        }
    }

    /// The forced-refresh path used by the request layer after an
    /// authentication failure.  The cached credential is cleared first, on
    /// every outcome, so a failed re-acquisition leaves the manager empty
    /// rather than holding a stale credential.  Returns the refresh
    /// credential to exchange, or [`Error::NoRefreshCredential`] exactly
    /// when none is configured — the forced path never falls back to the
    /// interactive exchange.
    pub fn force_refresh(&mut self) -> (r: Result<String, Error>)
        ensures
            clears_cache(*old(self), *final(self)),
            match old(self).refresh_credential() {
                Some(rt) => r == Ok::<String, Error>(rt),
                None => r == Err::<String, Error>(Error::NoRefreshCredential),
            },
    {
        self.bearer_token = None;
        match &self.refresh_token {
            Some(rt) => Ok(rt.clone()),
            None => Err(Error::NoRefreshCredential),
        }
    }
}

/// One serialized round of `authenticate` callers.  Exclusive access makes
/// concurrent callers take turns: each either observes a cached credential
/// — the read step of [`Authenticator::authenticate`], which changes
/// nothing — or finds the slot empty, runs the one acquisition, and caches
/// the granted bearer as [`Authenticator::refresh_and_cache`] ensures.
/// Given the slot's starting contents and the grant `g` that an acquisition
/// (if one runs) obtains, this returns what each of the `n` callers
/// receives, and how many acquisitions were executed.
pub open spec fn run_callers(cached: Option<String>, g: TokenGrant, n: nat) -> (Seq<String>, nat)
    decreases n,
{
    if n == 0 {
        (Seq::<String>::empty(), 0 as nat)
    } else {
        match cached {
            Some(b) => {
                let (rest, acquisitions) = run_callers(cached, g, (n - 1) as nat);
                (seq![b] + rest, acquisitions)
            },
            None => {
                let (rest, acquisitions) = run_callers(Some(g.bearer), g, (n - 1) as nat);
                (seq![g.bearer] + rest, (acquisitions + 1) as nat)
            },
        }
    }
}

/// Law: while a credential is cached, any number of serialized
/// `authenticate` callers read that same credential and no acquisition
/// runs, until the slot is invalidated.
pub proof fn lemma_cached_credential_reused(b: String, g: TokenGrant, n: nat)
    ensures
        ({
            let (results, acquisitions) = run_callers(Some(b), g, n);
            &&& results.len() == n
            &&& acquisitions == 0
            &&& forall|i: int| 0 <= i < n ==> results[i] == b
        }),
    decreases n,
{
    if n > 0 {
        lemma_cached_credential_reused(b, g, (n - 1) as nat);
    }
}

/// Law: when any number of callers ask an empty manager to authenticate,
/// exactly one acquisition protocol executes, and every caller receives
/// the same resulting credential.
pub proof fn lemma_single_acquisition(m: Authenticator, g: TokenGrant, n: nat)
    requires
        m.is_empty_state(),
    ensures
        ({
            let (results, acquisitions) = run_callers(m.cached(), g, n);
            &&& results.len() == n
            &&& (n > 0 ==> acquisitions == 1)
            &&& forall|i: int| 0 <= i < n ==> results[i] == g.bearer
        }),
{
    if n > 0 {
        lemma_cached_credential_reused(g.bearer, g, (n - 1) as nat);
    }
}

/// Law: a forced refresh clears the cached credential up front, so when
/// the following exchange is rejected — which, by the contract of
/// [`Authenticator::refresh_and_cache`], changes nothing — the manager
/// ends empty rather than holding a stale credential.
pub proof fn lemma_forced_refresh_failure_ends_empty(
    pre: Authenticator,
    mid: Authenticator,
    post: Authenticator,
)
    requires
        clears_cache(pre, mid),
        post == mid,
    ensures
        post.is_empty_state(),
        post.refresh_credential() == pre.refresh_credential(),
{
}

/// Relies on `oauth2::PkceCodeChallenge::new_random_sha256`: the verifier
/// is the base64url encoding, without padding, of 32 random bytes, and the
/// challenge the base64url encoding of the verifier's SHA-256 digest
/// (method `S256`); each encoding is 43 characters long.  The values are
/// random, so nothing beyond their length is promised.
#[verifier::external_body]
fn new_pkce_pair() -> (r: (String, String))
    ensures
        r.0@.len() == 43,
        r.1@.len() == 43,
{
    let (challenge, verifier) = oauth2::PkceCodeChallenge::new_random_sha256();
    (challenge.as_str().to_owned(), verifier.secret().to_owned())
}

/// The minimum scopes an authorization URL of this crate asks for: read
/// posts, write posts, read the profile, and offline access for a refresh
/// credential.
pub fn required_scopes() -> (r: Vec<String>)
    ensures
        r@.len() == 4,
        r@[0]@ == "tweet.read"@,
        r@[1]@ == "tweet.write"@,
        r@[2]@ == "users.read"@,
        r@[3]@ == "offline.access"@,
{
    proof {
        reveal_strlit("tweet.read");
        reveal_strlit("tweet.write");
        reveal_strlit("users.read");
        reveal_strlit("offline.access");
    }
    let mut scopes: Vec<String> = Vec::new();
    scopes.push("tweet.read".to_owned());
    scopes.push("tweet.write".to_owned());
    scopes.push("users.read".to_owned());
    scopes.push("offline.access".to_owned());
    scopes
}

} // verus!
