//! The cached access token of the authorization flow and its expiry.

use vstd::prelude::*;
use crate::clock::{unix_now, Timestamp};

verus! {

/// Nanoseconds in a second.
pub const NANOS_PER_SEC: u128 = 1_000_000_000;

/// Seconds taken off the lifetime the token endpoint announces, so that a
/// token is refreshed before it really runs out.
pub const EXPIRY_MARGIN_SECS: u64 = 60;

/// What the token endpoint answers with a new access token.
pub struct AccessTokenResponse {
    pub access_token: String,
    pub token_type: String,
    pub scope: String,
    /// Lifetime of the access token in seconds.
    pub expires_in: u64,
    pub refresh_token: String,
}

/// The instant, in nanoseconds from the Unix epoch, at which a token
/// received at `now` with a lifetime of `expires_in` seconds is taken to run
/// out: the lifetime less the safety margin.
pub open spec fn expiry_instant(now: Timestamp, expires_in: u64) -> int {
    now.value() + (expires_in - EXPIRY_MARGIN_SECS) * NANOS_PER_SEC
}

/// True when a token response can be stored at `now`: its lifetime is at
/// least the safety margin and its expiry instant is representable.
pub open spec fn can_store_at(response: AccessTokenResponse, now: Timestamp) -> bool {
    response.expires_in >= EXPIRY_MARGIN_SECS && expiry_instant(now, response.expires_in)
        <= u128::MAX
}

/// Whether a token response can be stored at `now` (see `can_store_at`).
pub fn can_store_response_at(response: &AccessTokenResponse, now: &Timestamp) -> (r: bool)
    ensures
        r == can_store_at(*response, *now),
{
    if response.expires_in < EXPIRY_MARGIN_SECS {
        return false;
    }
    let lifetime = ((response.expires_in - EXPIRY_MARGIN_SECS) as u128) * NANOS_PER_SEC;
    if now.before_epoch {
        true
    } else {
        lifetime <= u128::MAX - now.nanos
    }
}

/// The tokens of the authorization flow, with the instant from which the
/// access token counts as expired.
pub struct CachedAccessToken {
    pub code_verifier: Option<String>,
    pub access_token: Option<String>,
    pub refresh_token: Option<String>,
    pub expires_at: Timestamp,
}

impl CachedAccessToken {
    /// The state of a flow that has not started: no verifier, no tokens, and
    /// an expiry at the epoch.
    pub open spec fn is_cleared(&self) -> bool {
        &&& self.code_verifier is None
        &&& self.access_token is None
        &&& self.refresh_token is None
        &&& self.expires_at.value() == 0
    }

    /// The access token counts as expired at `now` once `now` has reached
    /// the expiry instant.
    pub open spec fn expired_at(&self, now: Timestamp) -> bool {
        now.value() >= self.expires_at.value()
    }

    /// A token cache with nothing in it.
    pub fn new() -> (token: Self)
        ensures
            token.is_cleared(),
    {
        CachedAccessToken {
            code_verifier: None,
            access_token: None,
            refresh_token: None,
            expires_at: Timestamp::unix_epoch(),
        }
    }

    /// Whether the access token counts as expired at the given instant.
    pub fn is_expired_at(&self, now: &Timestamp) -> (r: bool)
        ensures
            r == self.expired_at(*now),
    {
        now.is_at_or_after(&self.expires_at)
    }

    /// Whether the access token counts as expired now, by the wall clock.
    /// Which answer comes depends on the clock, so nothing is stated of it;
    /// `is_expired_at` gives the answer for a given instant.
    pub fn is_expired(&self) -> bool {
        self.is_expired_at(&unix_now())
    }

    /// Stores the tokens of a response received at `now`, and its expiry
    /// instant. The code verifier is kept.
    pub fn store_response(&mut self, response: &AccessTokenResponse, now: &Timestamp)
        requires
            can_store_at(*response, *now),
        ensures
            final(self).code_verifier == old(self).code_verifier,
            final(self).access_token == Some(response.access_token),
            final(self).refresh_token == Some(response.refresh_token),
            final(self).expires_at.value() == expiry_instant(*now, response.expires_in),
    {
        self.access_token = Some(response.access_token.clone());
        self.refresh_token = Some(response.refresh_token.clone());
        let lifetime = ((response.expires_in - EXPIRY_MARGIN_SECS) as u128) * NANOS_PER_SEC;
        self.expires_at = now.plus_nanos(lifetime);
    }

    /// Forgets the access and refresh tokens; the code verifier and the
    /// expiry instant are kept.
    pub fn clear_tokens(&mut self)
        ensures
            final(self).code_verifier == old(self).code_verifier,
            final(self).access_token is None,
            final(self).refresh_token is None,
            final(self).expires_at == old(self).expires_at,
    {
        self.access_token = None;
        self.refresh_token = None;
    }
}

/// Expiry is monotone in time: a token expired at some instant is expired
/// at every later one.
pub proof fn lemma_expiry_monotone(token: CachedAccessToken, t1: Timestamp, t2: Timestamp)
    requires
        t1.value() <= t2.value(),
        token.expired_at(t1),
    ensures
        token.expired_at(t2),
{
}

/// A cleared cache is expired exactly at the instants from the epoch on; a
/// clock set before the epoch finds it not yet expired.
pub proof fn lemma_cleared_expiry(token: CachedAccessToken, now: Timestamp)
    requires
        token.is_cleared(),
    ensures
        token.expired_at(now) <==> now.value() >= 0,
{
}

/// A token stored at `now` with a lifetime above the margin is not expired
/// until its lifetime less the margin has passed, and is expired from then on.
pub proof fn lemma_stored_token_lifetime(
    token: CachedAccessToken,
    response: AccessTokenResponse,
    now: Timestamp,
    later: Timestamp,
)
    requires
        can_store_at(response, now),
        token.expires_at.value() == expiry_instant(now, response.expires_in),
    ensures
        token.expired_at(later) <==> later.value() >= now.value() + (response.expires_in
            - EXPIRY_MARGIN_SECS) * NANOS_PER_SEC,
        response.expires_in > EXPIRY_MARGIN_SECS ==> !token.expired_at(now),
{
}

} // verus!
