//! The cached Graph access token. Instants are nanoseconds on a monotonic
//! clock that the caller reads.
use vstd::prelude::*;

verus! {

/// How long before its stated expiry a token is treated as expired.
pub const TOKEN_EXPIRY_MARGIN_SECONDS: u64 = 60;

/// `expires_in.saturating_sub(60)`: the lifetime the cache grants a token.
pub open spec fn granted_lifetime(expires_in: u64) -> u64 {
    if expires_in >= TOKEN_EXPIRY_MARGIN_SECONDS {
        (expires_in - TOKEN_EXPIRY_MARGIN_SECONDS) as u64
    } else {
        0
    }
}

/// `expires_in.saturating_sub(60)`.
pub fn granted_lifetime_seconds(expires_in: u64) -> (r: u64)
    ensures
        r == granted_lifetime(expires_in),
{
    expires_in.saturating_sub(TOKEN_EXPIRY_MARGIN_SECONDS)
}

/// Nanoseconds in a second.
pub const NANOS_PER_SECOND: u128 = 1_000_000_000;

/// An access token and the instant from which it counts as expired.
pub struct AccessToken {
    pub access_token: String,
    pub expires_at: u128,
}

impl AccessToken {
    /// A token obtained at `now` that the server said is valid for
    /// `expires_in` seconds; it is kept a minute less than that.
    pub fn new(access_token: String, expires_in: u64, now: u128) -> (r: Self)
        requires
            expiry_of(expires_in, now) <= u128::MAX,
        ensures
            r.access_token == access_token,
            r.expires_at == expiry_of(expires_in, now),
    {
        let safe_expires_in = expires_in.saturating_sub(TOKEN_EXPIRY_MARGIN_SECONDS);
        assert(safe_expires_in as u128 * NANOS_PER_SECOND <= u64::MAX as u128 * NANOS_PER_SECOND)
            by (nonlinear_arith)
            requires
                safe_expires_in <= u64::MAX,
        ;
        let lifetime: u128 = safe_expires_in as u128 * NANOS_PER_SECOND;
        AccessToken { access_token, expires_at: now + lifetime }
    }

    /// Whether the token counts as expired at `now`.
    pub fn is_expired(&self, now: u128) -> (r: bool)
        ensures
            r == expired_at(*self, now),
    {
        now >= self.expires_at
    }
}

/// A token counts as expired from its expiry instant on.
pub open spec fn expired_at(token: AccessToken, now: u128) -> bool {
    now >= token.expires_at
}

/// The instant from which a token obtained at `now` with the stated
/// lifetime `expires_in` counts as expired.
pub open spec fn expiry_of(expires_in: u64, now: u128) -> int {
    now + granted_lifetime(expires_in) * NANOS_PER_SECOND
}

/// A token that the server grants for more than the margin is not expired
/// at the instant it was obtained; one granted for the margin or less is
/// expired at once; and a token that is expired at some instant is expired
/// at every later one.
pub proof fn lemma_token_expiry(token: AccessToken, expires_in: u64, now: u128, later: u128)
    requires
        token.expires_at == expiry_of(expires_in, now),
        now <= later,
    ensures
        expires_in > TOKEN_EXPIRY_MARGIN_SECONDS ==> !expired_at(token, now),
        expires_in <= TOKEN_EXPIRY_MARGIN_SECONDS ==> expired_at(token, now),
        expired_at(token, now) ==> expired_at(token, later),
{
}

} // verus!
