use amazon_ads_api::token::{token_from_response, AccessTokenResponse, AuthError, CachedToken};

fn token(obtained_at: u64, expires_in: u64) -> CachedToken {
    CachedToken {
        access_token: "Atza|abc".to_string(),
        token_type: "bearer".to_string(),
        obtained_at,
        expires_in,
    }
}

fn response(access_token: &str) -> AccessTokenResponse {
    AccessTokenResponse {
        access_token: access_token.to_string(),
        token_type: "bearer".to_string(),
        expires_in: 3600,
        refresh_token: "Atzr|r".to_string(),
    }
}

#[test]
fn token_validity_window() {
    let now = 100_000;
    assert!(token(now - 10, 3600).is_valid(now));
    assert!(!token(now - 3650, 3600).is_valid(now));
    // the safety margin of 30 s is cut from the lifetime
    assert!(token(now, 3600).is_valid(now + 3569));
    assert!(!token(now, 3600).is_valid(now + 3570));
    assert!(!token(now, 0).is_valid(now));
}

#[test]
fn token_validity_near_the_clock_limit() {
    assert!(token(u64::MAX, u64::MAX).is_valid(u64::MAX));
    assert!(!token(0, 30).is_valid(0));
}

#[test]
fn failed_status_is_exchange_failure() {
    let r = token_from_response(401, "bad client".to_string(), Some(response("t")), 7);
    match r {
        Err(AuthError::TokenExchangeFailed { status, body }) => {
            assert_eq!(status, 401);
            assert_eq!(body, "bad client");
        }
        other => panic!("unexpected {:?}", other),
    }
    assert!(matches!(
        token_from_response(199, String::new(), None, 7),
        Err(AuthError::TokenExchangeFailed { status: 199, .. })
    ));
    assert!(matches!(
        token_from_response(300, String::new(), None, 7),
        Err(AuthError::TokenExchangeFailed { status: 300, .. })
    ));
}

#[test]
fn unreadable_answer_is_malformed() {
    assert!(matches!(
        token_from_response(200, "<html>".to_string(), None, 7),
        Err(AuthError::MalformedResponse)
    ));
}

#[test]
fn token_with_control_character_is_still_issued() {
    let t = token_from_response(200, String::new(), Some(response("a\nb")), 7).unwrap();
    assert_eq!(t.access_token, "a\nb");
    assert_eq!(t.obtained_at, 7);
}

#[test]
fn token_inside_safety_margin_is_refused() {
    let mut short = response("t");
    short.expires_in = 30;
    assert!(matches!(
        token_from_response(200, String::new(), Some(short), 7),
        Err(AuthError::LifetimeTooShort { expires_in: 30 })
    ));
    let mut enough = response("t");
    enough.expires_in = 31;
    let t = token_from_response(200, String::new(), Some(enough), 7).unwrap();
    assert!(t.is_valid(7));
}

#[test]
fn good_answer_is_stamped_with_now() {
    let t = token_from_response(200, String::new(), Some(response("Atza|xyz")), 1234).unwrap();
    assert_eq!(t.access_token, "Atza|xyz");
    assert_eq!(t.token_type, "bearer");
    assert_eq!(t.obtained_at, 1234);
    assert_eq!(t.expires_in, 3600);
    assert!(token_from_response(299, String::new(), Some(response("x")), 1).is_ok());
}
