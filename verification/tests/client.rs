use spotify_server::clock::Timestamp;
use spotify_server::error::ServerError;
use spotify_server::pkce::code_challenge;
use spotify_server::spotify_client::{
    get_spotify_token_url, RefreshPlan, RefreshTick, SpotifyAuthCallbackParams, SpotifyClient,
    TokenExchangeOutcome,
};
use spotify_server::token::{AccessTokenResponse, NANOS_PER_SEC};

const REDIRECT: &str = "http://127.0.0.1:8080/callback";

fn client() -> SpotifyClient {
    SpotifyClient::new("my-client".to_string(), REDIRECT)
}

fn response(expires_in: u64) -> AccessTokenResponse {
    AccessTokenResponse {
        access_token: "new-access".to_string(),
        token_type: "Bearer".to_string(),
        scope: "playlist-read-private".to_string(),
        expires_in,
        refresh_token: "new-refresh".to_string(),
    }
}

fn at(nanos: u128) -> Timestamp {
    Timestamp::after_epoch(nanos)
}

fn pairs(form: &[(String, String)]) -> Vec<(&str, &str)> {
    form.iter().map(|(k, v)| (k.as_str(), v.as_str())).collect()
}

#[test]
fn token_url() {
    assert_eq!(get_spotify_token_url().unwrap(), "https://accounts.spotify.com/api/token");
}

#[test]
fn authorization_url_for_challenge() {
    let url = client().authorization_url_for("E9Melhoa2OwvFrEMTJguCHaoeK1t8URWbuGJSstw-cM").unwrap();
    assert_eq!(
        url,
        "https://accounts.spotify.com/authorize?client_id=my-client&response_type=code\
         &redirect_uri=http%3A%2F%2F127.0.0.1%3A8080%2Fcallback\
         &scope=playlist-read-private+playlist-read-collaborative\
         &code_challenge_method=S256&code_challenge=E9Melhoa2OwvFrEMTJguCHaoeK1t8URWbuGJSstw-cM"
    );
}

#[test]
fn auth_url_carries_challenge_of_returned_verifier() {
    let c = client();
    let (url, verifier) = c.get_spotify_auth_url().unwrap();
    assert_eq!(verifier.len(), 128);
    assert_eq!(url, c.authorization_url_for(&code_challenge(&verifier)).unwrap());
    let (_, other) = c.get_spotify_auth_url().unwrap();
    assert_ne!(verifier, other);
}

#[test]
fn start_client_auth_keeps_the_verifier() {
    let mut c = client();
    c.cached_access_token.access_token = Some("stale".to_string());
    c.cached_access_token.expires_at = at(42);
    let url = c.start_client_auth().unwrap();
    let verifier = c.cached_access_token.code_verifier.clone().unwrap();
    assert_eq!(url, c.authorization_url_for(&code_challenge(&verifier)).unwrap());
    assert!(c.cached_access_token.access_token.is_none());
    assert!(c.cached_access_token.refresh_token.is_none());
    assert_eq!(c.cached_access_token.expires_at, Timestamp::unix_epoch());
}

#[test]
fn reset_empties_the_cache() {
    let mut c = client();
    c.cached_access_token.code_verifier = Some("v".to_string());
    c.cached_access_token.refresh_token = Some("r".to_string());
    c.cached_access_token.expires_at = at(9);
    c.reset_spotify_access_token();
    assert!(c.cached_access_token.code_verifier.is_none());
    assert!(c.cached_access_token.refresh_token.is_none());
    assert_eq!(c.cached_access_token.expires_at, Timestamp::unix_epoch());
    assert_eq!(c.client_id, "my-client");
}

#[test]
fn exchange_without_verifier_is_an_auth_error() {
    let c = client();
    let params = SpotifyAuthCallbackParams { code: "abc".to_string(), state: None };
    match c.prepare_token_exchange(&params) {
        Err(ServerError::AuthError(m)) => assert_eq!(m, "Code verifier not found in cached access token"),
        _ => panic!("expected an authorization error"),
    }
}

#[test]
fn exchange_posts_code_and_verifier() {
    let mut c = client();
    c.cached_access_token.code_verifier = Some("the-verifier".to_string());
    let params = SpotifyAuthCallbackParams { code: "abc".to_string(), state: Some("s".to_string()) };
    let request = c.prepare_token_exchange(&params).ok().unwrap();
    assert_eq!(request.url, "https://accounts.spotify.com/api/token");
    assert_eq!(
        pairs(&request.form),
        vec![
            ("grant_type", "authorization_code"),
            ("code", "abc"),
            ("redirect_uri", REDIRECT),
            ("client_id", "my-client"),
            ("code_verifier", "the-verifier"),
        ]
    );
}

#[test]
fn exchange_outcomes() {
    let mut c = client();
    c.cached_access_token.code_verifier = Some("v".to_string());
    assert!(c.finish_token_exchange(TokenExchangeOutcome::Unreadable, at(0)).is_ok());
    assert!(c.cached_access_token.access_token.is_none());
    match c.finish_token_exchange(TokenExchangeOutcome::Failed("timeout".to_string()), at(0)) {
        Err(ServerError::TokenError(m)) => assert_eq!(m, "Error processing access token response: timeout"),
        _ => panic!("expected a token error"),
    }
    assert!(c.cached_access_token.access_token.is_none());
    let now = at(7 * NANOS_PER_SEC);
    assert!(c.finish_token_exchange(TokenExchangeOutcome::Received(response(3600)), now).is_ok());
    assert_eq!(c.cached_access_token.access_token.as_deref(), Some("new-access"));
    assert_eq!(c.cached_access_token.refresh_token.as_deref(), Some("new-refresh"));
    assert_eq!(c.cached_access_token.code_verifier.as_deref(), Some("v"));
    assert_eq!(c.cached_access_token.expires_at, at(7 * NANOS_PER_SEC + 3540 * NANOS_PER_SEC));
}

#[test]
fn refresh_stops_on_shutdown_or_closed_channel() {
    let c = client();
    assert!(matches!(c.plan_token_refresh(RefreshTick::ShutdownRequested, at(0)), RefreshPlan::Stop));
    assert!(matches!(c.plan_token_refresh(RefreshTick::ChannelClosed, at(0)), RefreshPlan::Stop));
}

#[test]
fn refresh_waits_while_token_is_valid() {
    let mut c = client();
    c.cached_access_token.refresh_token = Some("r".to_string());
    c.cached_access_token.expires_at = at(100);
    assert!(matches!(c.plan_token_refresh(RefreshTick::TimedOut, at(99)), RefreshPlan::Idle));
}

#[test]
fn refresh_waits_on_clock_before_epoch() {
    let mut c = client();
    c.cached_access_token.refresh_token = Some("r".to_string());
    let before = Timestamp { before_epoch: true, nanos: 1 };
    assert!(matches!(c.plan_token_refresh(RefreshTick::TimedOut, before), RefreshPlan::Idle));
}

#[test]
fn refresh_without_refresh_token() {
    let c = client();
    assert!(matches!(c.plan_token_refresh(RefreshTick::TimedOut, at(5)), RefreshPlan::NoRefreshToken));
}

#[test]
fn refresh_posts_refresh_token() {
    let mut c = client();
    c.cached_access_token.refresh_token = Some("r-token".to_string());
    c.cached_access_token.expires_at = at(100);
    match c.plan_token_refresh(RefreshTick::TimedOut, at(100)) {
        RefreshPlan::Send(request) => {
            assert_eq!(request.url, "https://accounts.spotify.com/api/token");
            assert_eq!(
                pairs(&request.form),
                vec![("grant_type", "refresh_token"), ("refresh_token", "r-token"), ("client_id", "my-client")]
            );
        }
        _ => panic!("expected a refresh request"),
    }
}

#[test]
fn refresh_outcomes() {
    let mut c = client();
    c.cached_access_token.code_verifier = Some("v".to_string());
    c.cached_access_token.access_token = Some("a".to_string());
    c.cached_access_token.refresh_token = Some("r".to_string());
    c.cached_access_token.expires_at = at(3);
    c.finish_token_refresh(TokenExchangeOutcome::Failed("down".to_string()), at(10));
    assert_eq!(c.cached_access_token.access_token.as_deref(), Some("a"));
    assert_eq!(c.cached_access_token.refresh_token.as_deref(), Some("r"));
    c.finish_token_refresh(TokenExchangeOutcome::Received(response(120)), at(10));
    assert_eq!(c.cached_access_token.access_token.as_deref(), Some("new-access"));
    assert_eq!(c.cached_access_token.expires_at, at(10 + 60 * NANOS_PER_SEC));
    c.finish_token_refresh(TokenExchangeOutcome::Unreadable, at(20));
    assert!(c.cached_access_token.access_token.is_none());
    assert!(c.cached_access_token.refresh_token.is_none());
    assert_eq!(c.cached_access_token.code_verifier.as_deref(), Some("v"));
    assert_eq!(c.cached_access_token.expires_at, at(10 + 60 * NANOS_PER_SEC));
}
