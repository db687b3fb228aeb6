//! The cached upstream access token and the rules for renewing it.

use vstd::prelude::*;

verus! {

/// A token is served from the cache only while it has more than this many
/// seconds left.
pub const EXPIRY_MARGIN_SECS: u64 = 60;

/// The answer of the credential exchange: an access token and its lifetime
/// in seconds.
pub struct OAuthTokenResponse {
    pub access_token: String,
    pub expires_in: u64,
}

/// An access token with its expiry as Unix seconds.
pub struct CachedToken {
    pub token: String,
    pub expires_at: u64,
}

/// Failures of the exchange with the upstream authority.
#[derive(PartialEq, Eq, Structural, Clone, Copy, Debug)]
pub enum BrokerError {
    /// The secret was refused, or could not be read.
    UpstreamAuthFailed,
    /// A request did not reach the authority or was answered with a failure.
    UpstreamRequestFailed,
    /// A success answer whose body could not be read.
    UpstreamResponseInvalid,
}

/// An HTTP status in the success class.
pub open spec fn is_success(status: u16) -> bool {
    200 <= status <= 299
}

pub fn status_is_success(status: u16) -> (r: bool)
    ensures
        r == is_success(status),
{
    200 <= status && status <= 299
}

/// The single shared slot holding the current upstream access token.
pub struct TokenCache {
    pub slot: Option<CachedToken>,
}

impl TokenCache {
    /// The cached token may be served at `now`.
    pub open spec fn usable(&self, now: u64) -> bool {
        self.slot is Some && self.slot->0.expires_at > now + EXPIRY_MARGIN_SECS
    }

    /// An empty slot.
    pub fn new() -> (r: TokenCache)
        ensures
            r.slot is None,
    {
        TokenCache { slot: None }
    }

    /// The cached token when it has more than the margin left at `now`;
    /// `None` means a fresh exchange is due.
    pub fn cached(&self, now: u64) -> (r: Option<String>)
        ensures
            match r {
                Some(t) => self.usable(now) && t@ == self.slot->0.token@,
                None => !self.usable(now),
            },
    {
        match &self.slot {
            Some(c) => {
                if c.expires_at > now && c.expires_at - now > EXPIRY_MARGIN_SECS {
                    Some(c.token.clone())
                } else {
                    None
                }
            },
            None => None,
        }
    }

    /// Replaces the slot by the token just obtained at `now`, and hands the
    /// token back. An expiry past the end of time is held at the largest
    /// instant.
    pub fn install(&mut self, fresh: OAuthTokenResponse, now: u64) -> (r: String)
        ensures
            final(self).slot matches Some(c) && c.token@ == fresh.access_token@ && c.expires_at == (
            if now + fresh.expires_in > u64::MAX {
                u64::MAX as int
            } else {
                now + fresh.expires_in
            }),
            r@ == fresh.access_token@,
    {
        let token = fresh.access_token.clone();
        let expires_at = now.saturating_add(fresh.expires_in);
        self.slot = Some(CachedToken { token: fresh.access_token, expires_at });
        token
    }

    /// Concludes a credential exchange answered with `status` and, when its
    /// body could be read, `body`: a success installs the token and returns
    /// it; a refused exchange is `UpstreamAuthFailed`; an unreadable success
    /// body is `UpstreamResponseInvalid`. Only a success touches the slot.
    pub fn finish_exchange(&mut self, status: u16, body: Option<OAuthTokenResponse>, now: u64) -> (r: Result<String, BrokerError>)
        ensures
            !is_success(status) ==> r == Err::<String, BrokerError>(BrokerError::UpstreamAuthFailed)
                && final(self).slot == old(self).slot,
            is_success(status) && body is None ==> r == Err::<String, BrokerError>(
                BrokerError::UpstreamResponseInvalid,
            ) && final(self).slot == old(self).slot,
            is_success(status) && body is Some ==> (r is Ok && r->Ok_0@ == body->0.access_token@
                && final(self).slot is Some && final(self).slot->0.token@ == body->0.access_token@
                && final(self).slot->0.expires_at == (if now + body->0.expires_in > u64::MAX {
                u64::MAX as int
            } else {
                now + body->0.expires_in
            })),
    {
        if !status_is_success(status) {
            return Err(BrokerError::UpstreamAuthFailed);
        }
        match body {
            Some(b) => Ok(self.install(b, now)),
            None => Err(BrokerError::UpstreamResponseInvalid),
        }
    }
}

} // verus!
