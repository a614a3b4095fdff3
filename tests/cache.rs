use amazon_ads_api::cache::{Step, TokenCache};
use amazon_ads_api::token::{AuthError, CachedToken};

fn token(name: &str, obtained_at: u64, expires_in: u64) -> CachedToken {
    CachedToken {
        access_token: name.to_string(),
        token_type: "bearer".to_string(),
        obtained_at,
        expires_in,
    }
}

fn seed(cache: &mut TokenCache, key: &str, t: CachedToken, now: u64) {
    match cache.get_or_refresh(key, now) {
        Step::Lead(g) => {
            cache.finish(key, g, Ok(t)).unwrap();
        }
        other => panic!("expected to lead, got {:?}", other),
    }
}

#[test]
fn fresh_token_is_served_without_exchange() {
    let now = 50_000;
    let mut cache = TokenCache::new();
    seed(&mut cache, "seller-1", token("t1", now - 10, 3600), now - 10);
    match cache.get_or_refresh("seller-1", now) {
        Step::Hit(t) => assert_eq!(t.access_token, "t1"),
        other => panic!("expected a hit, got {:?}", other),
    }
}

#[test]
fn expired_token_is_refreshed_once() {
    let now = 50_000;
    let mut cache = TokenCache::new();
    seed(&mut cache, "seller-1", token("old", now - 3650, 3600), now - 3650);
    let g = match cache.get_or_refresh("seller-1", now) {
        Step::Lead(g) => g,
        other => panic!("expected to lead, got {:?}", other),
    };
    assert_eq!(g, 1);
    let out = cache.finish("seller-1", g, Ok(token("new", now, 3600))).unwrap();
    assert_eq!(out.access_token, "new");
    match cache.get_or_refresh("seller-1", now + 1) {
        Step::Hit(t) => assert_eq!(t.access_token, "new"),
        other => panic!("expected a hit, got {:?}", other),
    }
}

#[test]
fn concurrent_misses_share_one_exchange() {
    let mut cache = TokenCache::new();
    let mut leads = 0;
    let mut followers = Vec::new();
    for _ in 0..5 {
        match cache.get_or_refresh("seller-1", 10) {
            Step::Lead(g) => {
                leads += 1;
                assert_eq!(g, 0);
            }
            Step::Follow(g) => followers.push(g),
            Step::Hit(_) => panic!("nothing is cached yet"),
        }
    }
    assert_eq!(leads, 1);
    assert_eq!(followers, vec![0, 0, 0, 0]);
    assert!(cache.collect(0).is_none());
    cache.finish("seller-1", 0, Ok(token("shared", 10, 3600))).unwrap();
    for g in followers {
        let t = cache.collect(g).unwrap().unwrap();
        assert_eq!(t.access_token, "shared");
    }
    assert!(cache.collect(0).is_none());
}

#[test]
fn concurrent_misses_share_one_failure() {
    let mut cache = TokenCache::new();
    assert!(matches!(cache.get_or_refresh("a", 1), Step::Lead(0)));
    assert!(matches!(cache.get_or_refresh("a", 1), Step::Follow(0)));
    assert!(matches!(cache.get_or_refresh("a", 2), Step::Follow(0)));
    let err = AuthError::TokenExchangeFailed { status: 400, body: "invalid_grant".to_string() };
    assert!(cache.finish("a", 0, Err(err)).is_err());
    for _ in 0..2 {
        match cache.collect(0) {
            Some(Err(AuthError::TokenExchangeFailed { status, body })) => {
                assert_eq!(status, 400);
                assert_eq!(body, "invalid_grant");
            }
            other => panic!("unexpected {:?}", other),
        }
    }
    assert!(cache.collect(0).is_none());
}

#[test]
fn failure_is_not_cached() {
    let mut cache = TokenCache::new();
    assert!(matches!(cache.get_or_refresh("a", 1), Step::Lead(0)));
    assert!(cache.finish("a", 0, Err(AuthError::MalformedResponse)).is_err());
    assert!(matches!(cache.get_or_refresh("a", 2), Step::Lead(1)));
}

#[test]
fn accounts_are_independent() {
    let mut cache = TokenCache::new();
    assert!(matches!(cache.get_or_refresh("a", 1), Step::Lead(0)));
    assert!(matches!(cache.get_or_refresh("b", 1), Step::Lead(1)));
    cache.finish("b", 1, Ok(token("tb", 1, 3600))).unwrap();
    assert!(matches!(cache.get_or_refresh("a", 1), Step::Follow(0)));
    assert!(matches!(cache.get_or_refresh("b", 2), Step::Hit(_)));
}

#[test]
fn full_cache_evicts_least_recently_refreshed() {
    let mut cache = TokenCache::with_capacity(2).unwrap();
    seed(&mut cache, "a", token("ta", 100, 3600), 100);
    seed(&mut cache, "b", token("tb", 50, 3600), 100);
    seed(&mut cache, "c", token("tc", 200, 3600), 200);
    assert!(matches!(cache.get_or_refresh("a", 300), Step::Hit(_)));
    assert!(matches!(cache.get_or_refresh("c", 300), Step::Hit(_)));
    assert!(matches!(cache.get_or_refresh("b", 300), Step::Lead(_)));
}

#[test]
fn zero_capacity_is_refused() {
    assert!(TokenCache::with_capacity(0).is_none());
    assert!(TokenCache::new().has_room());
}

#[test]
fn stale_finish_leaves_flight() {
    let mut cache = TokenCache::new();
    assert!(matches!(cache.get_or_refresh("a", 1), Step::Lead(0)));
    assert!(matches!(cache.get_or_refresh("a", 1), Step::Follow(0)));
    assert!(cache.finish("a", 7, Err(AuthError::MalformedResponse)).is_err());
    assert!(matches!(cache.get_or_refresh("a", 1), Step::Follow(0)));
}

#[test]
fn abandoned_wait_before_finish() {
    let mut cache = TokenCache::new();
    assert!(matches!(cache.get_or_refresh("a", 1), Step::Lead(0)));
    assert!(matches!(cache.get_or_refresh("a", 1), Step::Follow(0)));
    assert!(matches!(cache.get_or_refresh("a", 1), Step::Follow(0)));
    cache.abandon(0);
    cache.finish("a", 0, Ok(token("t", 1, 3600))).unwrap();
    assert!(cache.collect(0).is_some());
    assert!(cache.collect(0).is_none());
}

#[test]
fn abandoned_wait_after_finish() {
    let mut cache = TokenCache::new();
    assert!(matches!(cache.get_or_refresh("a", 1), Step::Lead(0)));
    assert!(matches!(cache.get_or_refresh("a", 1), Step::Follow(0)));
    cache.finish("a", 0, Err(AuthError::MalformedResponse)).unwrap_err();
    cache.abandon(0);
    assert!(cache.collect(0).is_none());
    cache.abandon(9);
    assert!(matches!(cache.get_or_refresh("a", 2), Step::Lead(1)));
}
