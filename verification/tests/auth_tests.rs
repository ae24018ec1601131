use torizon_cloud_cli::auth::{
    cache_path, cached_token, cached_token_now, record_token, record_token_now, token_form,
    token_reply_error, CachedToken, TokenCache, EXPIRY_MARGIN_SECS,
};
use torizon_cloud_cli::config::Profile;
use torizon_cloud_cli::strmap::StrMap;

#[test]
fn cached_token_respects_the_margin() {
    let mut cache: TokenCache = StrMap::new();
    cache.insert("cid".to_string(), CachedToken { access_token: "tok".to_string(), expires_at: 1000 });
    assert_eq!(cached_token(&cache, "cid", 0), Some("tok".to_string()));
    assert_eq!(cached_token(&cache, "cid", 1000 - EXPIRY_MARGIN_SECS - 1), Some("tok".to_string()));
    assert_eq!(cached_token(&cache, "cid", 1000 - EXPIRY_MARGIN_SECS), None);
    assert_eq!(cached_token(&cache, "cid", 5000), None);
    assert_eq!(cached_token(&cache, "other", 0), None);
    assert_eq!(cached_token(&cache, "cid", u64::MAX), None);
}

#[test]
fn recorded_token_is_served_scenario() {
    let mut cache: TokenCache = StrMap::new();
    record_token(&mut cache, "a", "t1", 100, 300);
    record_token(&mut cache, "b", "t2", 100, 300);
    assert_eq!(cached_token(&cache, "a", 200), Some("t1".to_string()));
    assert_eq!(cached_token(&cache, "b", 369), Some("t2".to_string()));
    assert_eq!(cached_token(&cache, "b", 370), None);
    // a new token replaces the old one for the same client
    record_token(&mut cache, "a", "t3", 1000, 60);
    assert_eq!(cached_token(&cache, "a", 1000), Some("t3".to_string()));
    assert_eq!(cache.get("a").unwrap().expires_at, 1060);
    assert_eq!(cache.len(), 2);
    // the expiry saturates instead of overflowing
    record_token(&mut cache, "c", "t4", u64::MAX - 1, 10);
    assert_eq!(cache.get("c").unwrap().expires_at, u64::MAX);
}

#[test]
fn tokens_with_the_clock() {
    let mut cache: TokenCache = StrMap::new();
    assert_eq!(cached_token_now(&cache, "cid"), None);
    record_token_now(&mut cache, "cid", "tok", 3600);
    assert_eq!(cached_token_now(&cache, "cid"), Some("tok".to_string()));
    record_token_now(&mut cache, "old", "stale", 0);
    assert_eq!(cached_token_now(&cache, "old"), None);
}

#[test]
fn token_form_fields() {
    let p = Profile {
        client_id: "id1".to_string(),
        client_secret: "sec".to_string(),
        api_base: None,
        token_url: None,
    };
    assert_eq!(
        token_form(&p),
        vec![
            ("grant_type".to_string(), "client_credentials".to_string()),
            ("client_id".to_string(), "id1".to_string()),
            ("client_secret".to_string(), "sec".to_string()),
        ]
    );
}

#[test]
fn token_reply_errors() {
    assert_eq!(token_reply_error(200, "{}"), None);
    assert_eq!(
        token_reply_error(401, " {\"error\":\"invalid_client\"}\n"),
        Some("token request failed (HTTP 401): {\"error\":\"invalid_client\"}".to_string())
    );
}

#[test]
fn cache_file_location() {
    match cache_path() {
        Ok(p) => assert!(p.ends_with("torizon/token-cache.json"), "{}", p),
        Err(_) => {}
    }
}
