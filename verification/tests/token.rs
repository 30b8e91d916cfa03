use spotify_server::clock::{unix_now, Timestamp};
use spotify_server::token::{can_store_response_at, AccessTokenResponse, CachedAccessToken, NANOS_PER_SEC};

fn at(nanos: u128) -> Timestamp {
    Timestamp::after_epoch(nanos)
}

fn before(nanos: u128) -> Timestamp {
    Timestamp { before_epoch: true, nanos }
}

fn response(expires_in: u64) -> AccessTokenResponse {
    AccessTokenResponse {
        access_token: "access".to_string(),
        token_type: "Bearer".to_string(),
        scope: "playlist-read-private".to_string(),
        expires_in,
        refresh_token: "refresh".to_string(),
    }
}

#[test]
fn new_cache_is_empty_and_expired() {
    let token = CachedAccessToken::new();
    assert!(token.code_verifier.is_none() && token.access_token.is_none() && token.refresh_token.is_none());
    assert_eq!(token.expires_at, Timestamp::unix_epoch());
    assert!(token.is_expired());
    assert!(token.is_expired_at(&at(0)));
    assert!(token.is_expired_at(&before(0)));
    assert!(token.is_expired_at(&at(u128::MAX)));
    assert!(!token.is_expired_at(&before(1)));
}

#[test]
fn stored_token_expires_a_minute_early() {
    let mut token = CachedAccessToken::new();
    token.code_verifier = Some("verifier".to_string());
    let now = at(1_000 * NANOS_PER_SEC);
    token.store_response(&response(3600), &now);
    assert_eq!(token.access_token.as_deref(), Some("access"));
    assert_eq!(token.refresh_token.as_deref(), Some("refresh"));
    assert_eq!(token.code_verifier.as_deref(), Some("verifier"));
    assert_eq!(token.expires_at, at(1_000 * NANOS_PER_SEC + 3540 * NANOS_PER_SEC));
    assert!(!token.is_expired_at(&now));
    assert!(!token.is_expired_at(&at(4540 * NANOS_PER_SEC - 1)));
    assert!(token.is_expired_at(&at(4540 * NANOS_PER_SEC)));
}

#[test]
fn stored_token_is_not_expired_by_the_clock() {
    let mut token = CachedAccessToken::new();
    let now = unix_now();
    assert!(!now.before_epoch && now.nanos > 0);
    token.store_response(&response(3600), &now);
    assert!(!token.is_expired());
}

#[test]
fn lifetime_of_exactly_the_margin_expires_at_once() {
    let mut token = CachedAccessToken::new();
    token.store_response(&response(60), &at(5));
    assert_eq!(token.expires_at, at(5));
    assert!(token.is_expired_at(&at(5)));
    assert!(!token.is_expired_at(&at(4)));
}

#[test]
fn storable_responses() {
    assert!(!can_store_response_at(&response(59), &at(0)));
    assert!(can_store_response_at(&response(60), &at(0)));
    assert!(can_store_response_at(&response(u64::MAX), &at(0)));
    assert!(!can_store_response_at(&response(61), &at(u128::MAX)));
    assert!(can_store_response_at(&response(60), &at(u128::MAX)));
    assert!(can_store_response_at(&response(u64::MAX), &before(u128::MAX)));
}

#[test]
fn clearing_forgets_tokens_only() {
    let mut token = CachedAccessToken::new();
    token.code_verifier = Some("v".to_string());
    token.store_response(&response(120), &at(0));
    token.clear_tokens();
    assert!(token.access_token.is_none() && token.refresh_token.is_none());
    assert_eq!(token.code_verifier.as_deref(), Some("v"));
    assert_eq!(token.expires_at, at(60 * NANOS_PER_SEC));
}

#[test]
fn clock_before_epoch_finds_cleared_cache_not_expired() {
    let token = CachedAccessToken::new();
    assert!(!token.is_expired_at(&before(5 * NANOS_PER_SEC)));
}

#[test]
fn token_stored_before_epoch_expires_after_its_lifetime() {
    let mut token = CachedAccessToken::new();
    let now = before(100 * NANOS_PER_SEC);
    token.store_response(&response(120), &now);
    assert_eq!(token.expires_at, before(40 * NANOS_PER_SEC));
    assert!(!token.is_expired_at(&before(41 * NANOS_PER_SEC)));
    assert!(token.is_expired_at(&before(40 * NANOS_PER_SEC)));
    let mut later = CachedAccessToken::new();
    later.store_response(&response(200), &now);
    assert_eq!(later.expires_at, at(40 * NANOS_PER_SEC));
}

#[test]
fn timestamps_order_and_add() {
    assert!(at(0).is_at_or_after(&before(0)));
    assert!(before(0).is_at_or_after(&at(0)));
    assert!(at(1).is_at_or_after(&before(7)));
    assert!(!before(7).is_at_or_after(&before(6)));
    assert_eq!(before(10).plus_nanos(4), before(6));
    assert_eq!(before(10).plus_nanos(10), at(0));
    assert_eq!(at(10).plus_nanos(4), at(14));
}
