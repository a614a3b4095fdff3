//! OAuth2 access tokens: what the authority answers, what is cached, and
//! how an exchange's HTTP answer becomes a token or an error.

use vstd::prelude::*;

verus! {

/// Seconds cut from a token's nominal lifetime, against clock skew and
/// requests still in flight when it runs out.
pub const SAFETY_MARGIN_SECS: u64 = 30;

/// The JSON answer of the token endpoint.
pub struct AccessTokenResponse {
    pub access_token: String,
    pub token_type: String,
    pub expires_in: usize,
    pub refresh_token: String,
}

/// An access token as the cache holds it; times are in seconds on the
/// caller's monotonic clock.
#[derive(Debug)]
pub struct CachedToken {
    pub access_token: String,
    pub token_type: String,
    pub obtained_at: u64,
    pub expires_in: u64,
}

impl Clone for CachedToken {
    fn clone(&self) -> (r: Self)
        ensures
            r == *self,
    {
        CachedToken {
            access_token: self.access_token.clone(),
            token_type: self.token_type.clone(),
            obtained_at: self.obtained_at,
            expires_in: self.expires_in,
        }
    }
}

impl CachedToken {
    /// A token may be handed out at `now` while `now` lies more than the
    /// safety margin before its expiry.
    pub open spec fn valid_at(self, now: u64) -> bool {
        now + SAFETY_MARGIN_SECS < self.obtained_at + self.expires_in
    }

    pub fn is_valid(&self, now: u64) -> (r: bool)
        ensures
            r == self.valid_at(now),
    {
        (now as u128) + (SAFETY_MARGIN_SECS as u128) < (self.obtained_at as u128) + (
        self.expires_in as u128)
    }
}

/// Why no token could be had.
#[derive(Debug)]
pub enum AuthError {
    /// The authority answered with a status outside 200..=299.
    TokenExchangeFailed { status: u16, body: String },
    /// The authority's answer could not be read as a token.
    MalformedResponse,
    /// The authority issued a token whose lifetime does not outlast the
    /// safety margin, so it could not be handed out as valid.
    LifetimeTooShort { expires_in: u64 },
    /// The authority could not be reached; the transport's message.
    Unreachable { message: String },
}

impl Clone for AuthError {
    fn clone(&self) -> (r: Self)
        ensures
            r == *self,
    {
        match self {
            AuthError::TokenExchangeFailed { status, body } => AuthError::TokenExchangeFailed {
                status: *status,
                body: body.clone(),
            },
            AuthError::MalformedResponse => AuthError::MalformedResponse,
            AuthError::LifetimeTooShort { expires_in } => AuthError::LifetimeTooShort {
                expires_in: *expires_in,
            },
            AuthError::Unreachable { message } => AuthError::Unreachable { message: message.clone() },
        }
    }
}

pub open spec fn is_success_status(status: u16) -> bool {
    200 <= status <= 299
}

/// What an exchange yields: a failing status gives `TokenExchangeFailed`; a
/// successful one whose body did not parse gives `MalformedResponse`;
/// otherwise the token built from the answer's fields and stamped with the
/// time of the answer, unless its lifetime does not outlast the safety
/// margin: a token is never handed out outside its validity window, and
/// that one would be outside it at once (`LifetimeTooShort`).
pub open spec fn exchange_result(
    status: u16,
    body: String,
    parsed: Option<AccessTokenResponse>,
    now: u64,
) -> Result<CachedToken, AuthError> {
    if !is_success_status(status) {
        Err(AuthError::TokenExchangeFailed { status, body })
    } else {
        match parsed {
            None => Err(AuthError::MalformedResponse),
            Some(p) => if p.expires_in > SAFETY_MARGIN_SECS {
                Ok(
                    CachedToken {
                        access_token: p.access_token,
                        token_type: p.token_type,
                        obtained_at: now,
                        expires_in: p.expires_in as u64,
                    },
                )
            } else {
                Err(AuthError::LifetimeTooShort { expires_in: p.expires_in as u64 })
            },
        }
    }
}

/// Turns the authority's answer into a token or an error; `parsed` is the
/// body read as JSON, `None` where it was not a token answer.
pub fn token_from_response(
    status: u16,
    body: String,
    parsed: Option<AccessTokenResponse>,
    now: u64,
) -> (r: Result<CachedToken, AuthError>)
    ensures
        r == exchange_result(status, body, parsed, now),
        r is Ok ==> r->Ok_0.valid_at(now),
{
    if status < 200 || status > 299 {
        return Err(AuthError::TokenExchangeFailed { status, body });
    }
    match parsed {
        None => Err(AuthError::MalformedResponse),
        Some(p) => {
            if p.expires_in as u64 > SAFETY_MARGIN_SECS {
                Ok(
                    CachedToken {
                        access_token: p.access_token,
                        token_type: p.token_type,
                        obtained_at: now,
                        expires_in: p.expires_in as u64,
                    },
                )
            } else {
                Err(AuthError::LifetimeTooShort { expires_in: p.expires_in as u64 })
            }
        },
    }
}

} // verus!
