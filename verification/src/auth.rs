//! Saved OAuth tokens and the decisions of the authentication flow.
use vstd::prelude::*;

use crate::job::now_timestamp;
use crate::post::copy_opt_string;
use crate::text::{decimal, u64_to_string};
use crate::{ArchivrError, DEFAULT_CALLBACK_PORT};

verus! {

/// A saved OAuth token.
#[derive(Debug)]
pub struct Auth {
    pub access_token: String,
    pub refresh_token: Option<String>,
    pub expires_at: Option<i64>,
}

/// A token expires 60 seconds before its recorded expiry time; one without
/// expiry information never expires.
pub open spec fn expired_at(expires_at: Option<i64>, now: i64) -> bool {
    match expires_at {
        Some(e) => now >= e - 60,
        None => false,
    }
}

impl Auth {
    /// Whether the token counts as expired at `now` (with a 60-second safety buffer).
    pub fn is_expired_at(&self, now: i64) -> (res: bool)
        ensures
            res == expired_at(self.expires_at, now),
    {
        match self.expires_at {
            Some(expires_at) => now as i128 >= expires_at as i128 - 60,
            None => false,
        }
    }

    /// Returns `true` if the token is known to be expired (with a 60-second safety buffer).
    /// Returns `false` if no expiry info exists (treat legacy tokens as valid).
    pub fn is_expired(&self) -> (res: bool)
        ensures
            exists|now: i64| res == #[trigger] expired_at(self.expires_at, now),
            self.expires_at is None ==> !res,
    {
        let now = now_timestamp();
        let res = self.is_expired_at(now);
        assert(res == expired_at(self.expires_at, now));
        res
    }
}

/// The expiry time of a token that is valid for `expires_in` seconds from `now`,
/// in wrapping `i64` arithmetic.
pub open spec fn expiry(now: i64, expires_in: Option<u64>) -> Option<i64> {
    match expires_in {
        Some(secs) => Some(now.wrapping_add_unsigned(secs)),
        None => None,
    }
}

/// The expiry time of a token that is valid for `expires_in` seconds from `now`.
pub fn expires_at_from(now: i64, expires_in: Option<u64>) -> (res: Option<i64>)
    ensures
        res == expiry(now, expires_in),
{
    match expires_in {
        Some(secs) => Some(now.wrapping_add_unsigned(secs)),
        None => None,
    }
}

/// The expiry time of a token that is valid for `expires_in` seconds from now.
pub fn compute_expires_at(expires_in: Option<u64>) -> (res: Option<i64>)
    ensures
        exists|now: i64| res == #[trigger] expiry(now, expires_in),
        res is Some <==> expires_in is Some,
{
    let now = now_timestamp();
    let res = expires_at_from(now, expires_in);
    assert(res == expiry(now, expires_in));
    res
}

/// The saved token after a refresh: the new access token and expiry, and the new
/// refresh token, or the old one when the server did not issue a new one.
pub fn refreshed_auth(
    old: &Auth,
    access_token: String,
    refresh_token: Option<String>,
    expires_at: Option<i64>,
) -> (res: Auth)
    ensures
        res.access_token == access_token,
        res.refresh_token == match refresh_token {
            Some(t) => Some(t),
            None => old.refresh_token,
        },
        res.expires_at == expires_at,
{
    let refresh_token = match refresh_token {
        Some(t) => Some(t),
        None => copy_opt_string(&old.refresh_token),
    };
    Auth { access_token, refresh_token, expires_at }
}

/// What authentication has to do next.
#[derive(Debug)]
pub enum AuthStep {
    /// Ask the user to authorize in the browser.
    Interactive,
    /// Use the saved access token.
    UseSaved(String),
    /// Refresh the expired token with this refresh token.
    Refresh(String),
}

/// Decides how to authenticate: forced re-authentication and a missing token
/// go to the browser, a valid saved token is used, and an expired one is
/// refreshed when it can be.
pub fn plan_auth(reauth: bool, saved: Option<&Auth>, now: i64) -> (res: AuthStep)
    ensures
        reauth ==> res is Interactive,
        !reauth ==> match saved {
            None => res is Interactive,
            Some(a) => if !expired_at(a.expires_at, now) {
                res matches AuthStep::UseSaved(t) && t == a.access_token
            } else {
                match a.refresh_token {
                    Some(r) => res matches AuthStep::Refresh(t) && t == r,
                    None => res is Interactive,
                }
            },
        },
{
    if reauth {
        return AuthStep::Interactive;
    }
    match saved {
        None => AuthStep::Interactive,
        Some(a) => {
            if !a.is_expired_at(now) {
                AuthStep::UseSaved(a.access_token.clone())
            } else {
                match &a.refresh_token {
                    Some(r) => AuthStep::Refresh(r.clone()),
                    None => AuthStep::Interactive,
                }
            }
        },
    }
}

/// Checks the `state` parameter of an OAuth callback against the CSRF token that
/// was sent: a different state is refused, a missing one is let through.
pub fn check_csrf_state(expected: &String, state: &Option<String>) -> (res: Result<(), ArchivrError>)
    ensures
        match state {
            Some(s) => if s@ != expected@ {
                res matches Err(ArchivrError::CsrfMismatch { expected: e, actual: a }) && e@
                    == expected@ && a@ == s@
            } else {
                res is Ok
            },
            None => res is Ok,
        },
{
    match state {
        Some(s) => {
            if *s != *expected {
                Err(ArchivrError::CsrfMismatch { expected: expected.clone(), actual: s.clone() })
            } else {
                Ok(())
            }
        },
        None => Ok(()),
    }
}

/// The URL that the OAuth provider redirects to after authorization.
pub open spec fn redirect_uri_text() -> Seq<char> {
    "http://localhost:"@ + decimal(DEFAULT_CALLBACK_PORT as nat) + "/redirect"@
}

/// Builds the OAuth redirect URL on the local callback port.
pub fn redirect_uri() -> (res: String)
    ensures
        res@ == redirect_uri_text(),
{
    let mut s = String::from_str("http://localhost:");
    let port = u64_to_string(DEFAULT_CALLBACK_PORT as u64);
    s.append(port.as_str());
    s.append("/redirect");
    s
}

} // verus!
