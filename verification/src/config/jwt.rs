//! A bearer token and the moment it stops being usable.

use crate::clock::unix_seconds;
use vstd::prelude::*;

verus! {

/// Seconds before its expiry from which a token is no longer handed out, so
/// that it cannot expire on the remote side while a request is in flight.
pub const TOKEN_SAFETY_MARGIN_SECS: u64 = 300;

/// A bearer token with its expiry, in whole seconds since the Unix epoch.
#[derive(Debug)]
pub struct JwtInfo {
    /// The token as the token endpoint sent it.
    pub token: String,
    /// The second at which the token expires.
    pub expires_at: u64,
}

impl Clone for JwtInfo {
    fn clone(&self) -> (copy: Self)
        ensures
            copy == *self,
    {
        JwtInfo { token: self.token.clone(), expires_at: self.expires_at }
    }
}

impl JwtInfo {
    /// The expiry of a token issued at `now` for `lifetime` seconds. An expiry
    /// past the last second that can be written down is that last second.
    pub open spec fn expiry(now: int, lifetime: int) -> int {
        if now + lifetime <= u64::MAX {
            now + lifetime
        } else {
            u64::MAX as int
        }
    }

    /// Whether the token may still be handed out at `now`: only strictly
    /// before the safety margin ahead of its expiry begins.
    pub open spec fn usable_at(self, now: int) -> bool {
        now < self.expires_at - TOKEN_SAFETY_MARGIN_SECS
    }

    /// A token issued at the second `now` that lasts `expires_in_seconds`.
    pub fn issued_at(token: String, now: u64, expires_in_seconds: u64) -> (info: Self)
        ensures
            info.token == token,
            info.expires_at == JwtInfo::expiry(now as int, expires_in_seconds as int),
    {
        let expires_at = match now.checked_add(expires_in_seconds) {
            Some(at) => at,
            None => u64::MAX,
        };
        JwtInfo { token, expires_at }
    }

    /// A token issued now that lasts `expires_in_seconds`.
    pub fn new(token: String, expires_in_seconds: u64) -> (info: Self)
        ensures
            info.token == token,
            exists|now: u64| info.expires_at == JwtInfo::expiry(now as int, expires_in_seconds as int),
    {
        let now = unix_seconds();
        JwtInfo::issued_at(token, now, expires_in_seconds)
    }

    /// Whether the token may still be handed out at the second `now`. The
    /// second at which the safety margin begins is already too late.
    pub fn is_valid_at(&self, now: u64) -> (valid: bool)
        ensures
            valid == self.usable_at(now as int),
            now >= self.expires_at - TOKEN_SAFETY_MARGIN_SECS ==> !valid,
            now < self.expires_at - TOKEN_SAFETY_MARGIN_SECS ==> valid,
    {
        self.expires_at >= TOKEN_SAFETY_MARGIN_SECS && now < self.expires_at - TOKEN_SAFETY_MARGIN_SECS
    }

    /// Whether the token may still be handed out now.
    pub fn is_valid(&self) -> (valid: bool)
        ensures
            exists|now: u64| valid == self.usable_at(now as int),
    {
        let now = unix_seconds();
        self.is_valid_at(now)
    }
}

} // verus!
