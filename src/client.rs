//! The JSON `post` primitive: URL and header framing before the request
//! leaves, and the reading of the status that comes back.

use vstd::prelude::*;
use vstd::string::*;
use crate::headers::{
    header_value_valid, is_header_value, ACCEPT_HEADER, CONTENT_TYPE_HEADER, SCOPE_HEADER,
};
use crate::middleware::{pairs_view, AuthMiddleware};
use crate::region::{region_of, AmazonRegion};
use crate::text::upper_of;
use crate::cache::{CacheModel, Step};
use crate::token::{is_success_status, AuthError, CachedToken};

verus! {

#[verifier::external_type_specification]
#[verifier::external_body]
pub struct ExJsonValue(serde_json::Value);

#[verifier::external_type_specification]
#[verifier::external_body]
pub struct ExJsonError(serde_json::Error);

/// Media type sent as both content type and accepted type.
pub const MEDIA_TYPE: &'static str = "application/vnd.spProductAd.v3+json";

/// A header whose value could not be sent.
#[derive(Debug, Clone, Copy, PartialEq, Eq, Structural)]
pub enum HeaderField {
    Authorization,
    ClientId,
    Scope,
}

/// Every error that the request pipeline surfaces.
#[derive(Debug)]
pub enum ClientError {
    /// The country code belongs to no region.
    UnknownRegion,
    /// A header value holds a character that HTTP does not allow.
    InvalidHeader(HeaderField),
    /// No valid token could be had; the request was not sent.
    Auth(AuthError),
    /// The body could not be serialized; the request was not sent.
    Serialization,
    /// The API answered with a status outside 200..=299.
    HttpStatus { code: u16, body: String },
}

/// A request ready for the transport, before the credential headers.
pub struct PostRequest {
    pub url: String,
    pub headers: Vec<(String, String)>,
    pub body: String,
}

/// The status and body of an accepted response.
pub struct RawResponse {
    pub status: u16,
    pub body: String,
}

/// A configured client: its region and the credential of its account.
pub struct AdsClient {
    pub region: AmazonRegion,
    pub auth: AuthMiddleware,
}

/// The headers that `post` sets itself.
pub open spec fn post_headers(profile_id: Seq<char>) -> Seq<(Seq<char>, Seq<char>)> {
    seq![
        (SCOPE_HEADER@, profile_id),
        (CONTENT_TYPE_HEADER@, MEDIA_TYPE@),
        (ACCEPT_HEADER@, MEDIA_TYPE@),
    ]
}

/// Relies on `serde_json::to_string`: it writes into memory, and a `Value`
/// has only string keys, so serializing one always succeeds.
#[verifier::external_body]
fn to_json_text(v: &serde_json::Value) -> (r: Result<String, serde_json::Error>)
    ensures
        r is Ok,
{
    serde_json::to_string(v)
}

/// How an answer of the API is surfaced: a status in 200..=299 is returned
/// with its body, any other becomes `HttpStatus`; nothing is retried.
pub fn response_outcome(status: u16, body: String) -> (r: Result<RawResponse, ClientError>)
    ensures
        is_success_status(status) ==> r == Ok::<RawResponse, ClientError>(
            RawResponse { status, body },
        ),
        !is_success_status(status) ==> r == Err::<RawResponse, ClientError>(
            ClientError::HttpStatus { code: status, body },
        ),
{
    if 200 <= status && status <= 299 {
        Ok(RawResponse { status, body })
    } else {
        Err(ClientError::HttpStatus { code: status, body })
    }
}

impl AdsClient {
    /// Builds a client: the country code must name a region, and the client
    /// id must be a valid header value.
    pub fn new(
        country_code: &str,
        seller_id: &str,
        client_id: &str,
        client_secret: &str,
        refresh_token: &str,
    ) -> (r: Result<AdsClient, ClientError>)
        ensures
            region_of(upper_of(country_code@)) is None ==> r is Err && r->Err_0
                == ClientError::UnknownRegion,
            region_of(upper_of(country_code@)) is Some && !header_value_valid(client_id@) ==> r is Err
                && r->Err_0 == ClientError::InvalidHeader(HeaderField::ClientId),
            region_of(upper_of(country_code@)) is Some && header_value_valid(client_id@) ==> r is Ok
                && r->Ok_0.region == region_of(upper_of(country_code@))->Some_0
                && r->Ok_0.auth.seller_id@ == seller_id@ && r->Ok_0.auth.client_id@ == client_id@
                && r->Ok_0.auth.client_secret@ == client_secret@
                && r->Ok_0.auth.refresh_token@ == refresh_token@,
    {
        let region = match AmazonRegion::from_country_code(country_code) {
            Some(region) => region,
            None => return Err(ClientError::UnknownRegion),
        };
        if !is_header_value(client_id) {
            return Err(ClientError::InvalidHeader(HeaderField::ClientId));
        }
        Ok(
            AdsClient {
                region,
                auth: AuthMiddleware {
                    seller_id: String::from_str(seller_id),
                    client_id: String::from_str(client_id),
                    client_secret: String::from_str(client_secret),
                    refresh_token: String::from_str(refresh_token),
                },
            },
        )
    }

    /// The full URL of an API path: the region's base followed by the path.
    pub fn url(&self, path: &str) -> (r: String)
        ensures
            r@ == self.region.api_endpoint_spec() + path@,
    {
        let mut u = String::from_str(self.region.api_endpoint());
        u.append(path);
        u
    }

    /// Frames a post from the outcome of serializing its body: a failed
    /// serialization stops it before anything is sent; an invalid profile id
    /// stops it at its header; otherwise the request to hand on.
    pub fn frame_post(
        &self,
        path: &str,
        profile_id: &str,
        serialized: Result<String, serde_json::Error>,
    ) -> (r: Result<PostRequest, ClientError>)
        ensures
            serialized is Err ==> r is Err && r->Err_0 == ClientError::Serialization,
            serialized is Ok && !header_value_valid(profile_id@) ==> r is Err && r->Err_0
                == ClientError::InvalidHeader(HeaderField::Scope),
            serialized is Ok && header_value_valid(profile_id@) ==> r is Ok && r->Ok_0.url@
                == self.region.api_endpoint_spec() + path@ && pairs_view(r->Ok_0.headers@)
                == post_headers(profile_id@) && r->Ok_0.body == serialized->Ok_0,
    {
        let body = match serialized {
            Ok(text) => text,
            Err(_) => return Err(ClientError::Serialization),
        };
        if !is_header_value(profile_id) {
            return Err(ClientError::InvalidHeader(HeaderField::Scope));
        }
        let mut headers: Vec<(String, String)> = Vec::new();
        headers.push((String::from_str(SCOPE_HEADER), String::from_str(profile_id)));
        headers.push((String::from_str(CONTENT_TYPE_HEADER), String::from_str(MEDIA_TYPE)));
        headers.push((String::from_str(ACCEPT_HEADER), String::from_str(MEDIA_TYPE)));
        proof {
            assert(pairs_view(headers@) =~= post_headers(profile_id@));
        }
        Ok(PostRequest { url: self.url(path), headers, body })
    }

    /// Serializes `body`, which always succeeds for a JSON value, and frames
    /// the post; see `frame_post`.
    pub fn prepare_post(&self, path: &str, profile_id: &str, body: &serde_json::Value) -> (r: Result<
        PostRequest,
        ClientError,
    >)
        ensures
            header_value_valid(profile_id@) ==> r is Ok,
            !header_value_valid(profile_id@) ==> r is Err && r->Err_0
                == ClientError::InvalidHeader(HeaderField::Scope),
            r is Ok ==> header_value_valid(profile_id@) && r->Ok_0.url@
                == self.region.api_endpoint_spec() + path@ && pairs_view(r->Ok_0.headers@)
                == post_headers(profile_id@),
    {
        let serialized = to_json_text(body);
        self.frame_post(path, profile_id, serialized)
    }
}

/// Two requests for one account in quick succession: the first leads the
/// only exchange; once its token is stored, the second is served that same
/// token from the cache without an exchange, so both carry the same
/// credential headers.
pub proof fn lemma_repeat_request_shares_token(
    m: CacheModel,
    key: Seq<char>,
    first: u64,
    second: u64,
    t: CachedToken,
    after: CacheModel,
    auth: AuthMiddleware,
)
    requires
        !m.has_valid(key, first),
        !m.flights.contains_key(key),
        m.next_generation < u64::MAX,
        m.get_step(key, first).0.finish_step(key, m.next_generation, Ok(t), after),
        t.valid_at(second),
    ensures
        m.get_step(key, first).1 == Step::Lead(m.next_generation),
        after.get_step(key, second) == (after, Step::Hit(t)),
        auth.authorize_spec(Ok(t)) == auth.authorize_spec(
            Ok(after.get_step(key, second).1->Hit_0),
        ),
{
}

} // verus!
