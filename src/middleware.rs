//! The authorization stage that every outbound request passes: it takes the
//! token that the cache handed out and sets the credential headers.

use vstd::prelude::*;
use vstd::string::*;
use crate::client::{ClientError, HeaderField};
use crate::headers::{
    header_value_valid, is_header_value, AUTHORIZATION_HEADER, CLIENT_ID_HEADER,
};
use crate::token::{AuthError, CachedToken};

verus! {

/// The view of a list of name/value pairs.
pub open spec fn pairs_view(v: Seq<(String, String)>) -> Seq<(Seq<char>, Seq<char>)> {
    Seq::new(v.len(), |i: int| (v[i].0@, v[i].1@))
}

/// The credential of one account: the cache key and what the refresh grant sends.
pub struct AuthMiddleware {
    pub seller_id: String,
    pub client_id: String,
    pub client_secret: String,
    pub refresh_token: String,
}

pub open spec fn bearer(token: Seq<char>) -> Seq<char> {
    "Bearer "@ + token
}

impl AuthMiddleware {
    /// The form fields of the refresh-token grant, in order.
    pub open spec fn token_form_spec(self) -> Seq<(Seq<char>, Seq<char>)> {
        seq![
            ("grant_type"@, "refresh_token"@),
            ("client_id"@, self.client_id@),
            ("client_secret"@, self.client_secret@),
            ("refresh_token"@, self.refresh_token@),
        ]
    }

    /// The headers set on a request that carries `token`.
    pub open spec fn auth_headers_spec(self, token: CachedToken) -> Seq<(Seq<char>, Seq<char>)> {
        seq![
            (AUTHORIZATION_HEADER@, bearer(token.access_token@)),
            (CLIENT_ID_HEADER@, self.client_id@),
        ]
    }

    /// What the stage decides for a request: no token aborts it with the
    /// token's error; a token whose headers cannot be formed aborts it with
    /// `InvalidHeader`; otherwise the headers to set.
    pub open spec fn authorize_spec(
        self,
        token: Result<CachedToken, AuthError>,
    ) -> Result<Seq<(Seq<char>, Seq<char>)>, ClientError> {
        match token {
            Err(e) => Err(ClientError::Auth(e)),
            Ok(t) => if !header_value_valid(bearer(t.access_token@)) {
                Err(ClientError::InvalidHeader(HeaderField::Authorization))
            } else if !header_value_valid(self.client_id@) {
                Err(ClientError::InvalidHeader(HeaderField::ClientId))
            } else {
                Ok(self.auth_headers_spec(t))
            },
        }
    }

    /// The form fields of the refresh-token grant.
    pub fn token_form(&self) -> (r: Vec<(String, String)>)
        ensures
            pairs_view(r@) == self.token_form_spec(),
    {
        let mut v: Vec<(String, String)> = Vec::new();
        v.push((String::from_str("grant_type"), String::from_str("refresh_token")));
        v.push((String::from_str("client_id"), self.client_id.clone()));
        v.push((String::from_str("client_secret"), self.client_secret.clone()));
        v.push((String::from_str("refresh_token"), self.refresh_token.clone()));
        proof {
            assert(pairs_view(v@) =~= self.token_form_spec());
        }
        v
    }

    /// Decides the credential headers of an outgoing request from the
    /// outcome of the token lookup; the request is sent only on `Ok`.
    pub fn authorize(&self, token: Result<CachedToken, AuthError>) -> (r: Result<
        Vec<(String, String)>,
        ClientError,
    >)
        ensures
            match (r, self.authorize_spec(token)) {
                (Ok(h), Ok(s)) => pairs_view(h@) == s,
                (Err(e), Err(s)) => e == s,
                _ => false,
            },
    {
        match token {
            Err(e) => Err(ClientError::Auth(e)),
            Ok(t) => {
                let mut value = String::from_str("Bearer ");
                value.append(t.access_token.as_str());
                if !is_header_value(value.as_str()) {
                    return Err(ClientError::InvalidHeader(HeaderField::Authorization));
                }
                if !is_header_value(self.client_id.as_str()) {
                    return Err(ClientError::InvalidHeader(HeaderField::ClientId));
                }
                let mut v: Vec<(String, String)> = Vec::new();
                v.push((String::from_str(AUTHORIZATION_HEADER), value));
                v.push((String::from_str(CLIENT_ID_HEADER), self.client_id.clone()));
                proof {
                    assert(pairs_view(v@) =~= self.auth_headers_spec(t));
                }
                Ok(v)
            },
        }
    }
}

} // verus!
