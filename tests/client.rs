use amazon_ads_api::cache::{Step, TokenCache};
use amazon_ads_api::client::{response_outcome, AdsClient, ClientError, HeaderField};
use amazon_ads_api::region::AmazonRegion;
use amazon_ads_api::token::{AuthError, CachedToken};

fn client() -> AdsClient {
    AdsClient::new("US", "seller-1", "amzn1.client", "secret", "Atzr|refresh").unwrap()
}

fn json(text: &str) -> serde_json::Value {
    serde_json::from_str(text).unwrap()
}

fn pairs(v: &[(String, String)]) -> Vec<(&str, &str)> {
    v.iter().map(|(a, b)| (a.as_str(), b.as_str())).collect()
}

#[test]
fn new_resolves_region_and_keeps_credential() {
    let c = AdsClient::new("uk", "s", "id", "sec", "ref").unwrap();
    assert_eq!(c.region, AmazonRegion::EU);
    assert_eq!(c.auth.seller_id, "s");
    assert_eq!(c.auth.client_id, "id");
    assert_eq!(c.auth.client_secret, "sec");
    assert_eq!(c.auth.refresh_token, "ref");
}

#[test]
fn new_rejects_unknown_region() {
    assert!(matches!(
        AdsClient::new("ZZ", "s", "id", "sec", "ref"),
        Err(ClientError::UnknownRegion)
    ));
}

#[test]
fn new_rejects_client_id_that_is_no_header_value() {
    assert!(matches!(
        AdsClient::new("US", "s", "bad\nid", "sec", "ref"),
        Err(ClientError::InvalidHeader(HeaderField::ClientId))
    ));
}

#[test]
fn url_joins_base_and_path() {
    assert_eq!(client().url("/x"), "https://advertising-api.amazon.com/x");
    let fe = AdsClient::new("JP", "s", "id", "sec", "ref").unwrap();
    assert_eq!(fe.url("/sp/productAds/list"), "https://advertising-api-fe.amazon.com/sp/productAds/list");
}

#[test]
fn serialization_failure_stops_before_sending() {
    let err = serde_json::from_str::<serde_json::Value>("{").unwrap_err();
    assert!(matches!(
        client().frame_post("/x", "profile", Err(err)),
        Err(ClientError::Serialization)
    ));
}

#[test]
fn invalid_profile_header_stops_post() {
    assert!(matches!(
        client().prepare_post("/x", "p\r\n", &json("{}")),
        Err(ClientError::InvalidHeader(HeaderField::Scope))
    ));
}

#[test]
fn prepared_post_carries_url_headers_and_body() {
    let req = client().prepare_post("/x", "12345", &json("{\"a\": [1, 2]}")).unwrap();
    assert_eq!(req.url, "https://advertising-api.amazon.com/x");
    assert_eq!(req.body, "{\"a\":[1,2]}");
    assert_eq!(
        pairs(&req.headers),
        vec![
            ("Amazon-Advertising-API-Scope", "12345"),
            ("Content-Type", "application/vnd.spProductAd.v3+json"),
            ("Accept", "application/vnd.spProductAd.v3+json"),
        ]
    );
}

#[test]
fn forbidden_status_is_surfaced() {
    match response_outcome(403, "forbidden".to_string()) {
        Err(ClientError::HttpStatus { code, body }) => {
            assert_eq!(code, 403);
            assert_eq!(body, "forbidden");
        }
        _ => panic!("403 must be an error"),
    }
    assert!(matches!(response_outcome(500, String::new()), Err(ClientError::HttpStatus { code: 500, .. })));
    assert!(matches!(response_outcome(199, String::new()), Err(ClientError::HttpStatus { code: 199, .. })));
}

#[test]
fn success_status_returns_body() {
    let r = response_outcome(207, "{\"ok\":true}".to_string()).unwrap();
    assert_eq!(r.status, 207);
    assert_eq!(r.body, "{\"ok\":true}");
    assert!(response_outcome(200, String::new()).is_ok());
    assert!(response_outcome(299, String::new()).is_ok());
}

#[test]
fn token_form_is_refresh_grant() {
    let c = client();
    assert_eq!(
        pairs(&c.auth.token_form()),
        vec![
            ("grant_type", "refresh_token"),
            ("client_id", "amzn1.client"),
            ("client_secret", "secret"),
            ("refresh_token", "Atzr|refresh"),
        ]
    );
}

#[test]
fn authorize_sets_bearer_and_client_id() {
    let c = client();
    let t = CachedToken {
        access_token: "Atza|tok".to_string(),
        token_type: "bearer".to_string(),
        obtained_at: 0,
        expires_in: 3600,
    };
    let h = c.auth.authorize(Ok(t)).unwrap();
    assert_eq!(
        pairs(&h),
        vec![("Authorization", "Bearer Atza|tok"), ("Amazon-Advertising-API-ClientId", "amzn1.client")]
    );
}

#[test]
fn authorize_without_token_aborts() {
    let c = client();
    assert!(matches!(
        c.auth.authorize(Err(AuthError::MalformedResponse)),
        Err(ClientError::Auth(AuthError::MalformedResponse))
    ));
    let t = CachedToken {
        access_token: "a\u{7f}".to_string(),
        token_type: "bearer".to_string(),
        obtained_at: 0,
        expires_in: 3600,
    };
    assert!(matches!(
        c.auth.authorize(Ok(t)),
        Err(ClientError::InvalidHeader(HeaderField::Authorization))
    ));
}

#[test]
fn two_posts_share_one_exchange() {
    let c = AdsClient::new("US", "seller-1", "amzn1.client", "secret", "Atzr|refresh").unwrap();
    let mut cache = TokenCache::new();
    let mut exchanges = 0;
    let mut sent = Vec::new();
    for now in [1000u64, 1001u64] {
        let req = c.prepare_post("/x", "profile", &json("{\"k\":1}")).unwrap();
        let token = match cache.get_or_refresh(&c.auth.seller_id, now) {
            Step::Hit(t) => Ok(t),
            Step::Lead(g) => {
                exchanges += 1;
                let t = CachedToken {
                    access_token: "Atza|one".to_string(),
                    token_type: "bearer".to_string(),
                    obtained_at: now,
                    expires_in: 3600,
                };
                cache.finish(&c.auth.seller_id, g, Ok(t))
            }
            Step::Follow(_) => panic!("no other caller is waiting"),
        };
        let headers = c.auth.authorize(token).unwrap();
        sent.push((req.url, headers));
    }
    assert_eq!(exchanges, 1);
    assert_eq!(sent.len(), 2);
    assert_eq!(sent[0], sent[1]);
    assert_eq!(sent[0].1[0].1, "Bearer Atza|one");
}
