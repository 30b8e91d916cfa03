use spotify_server::error::ServerError;
use spotify_server::server::{list_playlists, should_restart_auth, ServerConfig, LIST_PLAYLISTS_PATH, SPOTIFY_CALLBACK_PATH};

#[test]
fn config_from_port_text() {
    assert_eq!(ServerConfig::from_port_text("8080").map(|c| c.server_port), Some(8080));
    assert_eq!(ServerConfig::from_port_text("+443").map(|c| c.server_port), Some(443));
    assert!(ServerConfig::from_port_text("70000").is_none());
    assert!(ServerConfig::from_port_text("port").is_none());
}

#[test]
fn addresses_from_port() {
    let config = ServerConfig { server_port: 8080 };
    assert_eq!(config.bind_address(), "127.0.0.1:8080");
    assert_eq!(config.redirect_uri(), "http://127.0.0.1:8080/callback");
    let config = ServerConfig { server_port: 0 };
    assert_eq!(config.redirect_uri(), "http://127.0.0.1:0/callback");
}

#[test]
fn routes_and_playlist_body() {
    assert_eq!(SPOTIFY_CALLBACK_PATH, "/callback");
    assert_eq!(LIST_PLAYLISTS_PATH, "/playlists");
    assert_eq!(list_playlists(), "List of playlists");
}

#[test]
fn only_token_errors_restart_auth() {
    assert!(should_restart_auth(&ServerError::TokenError("t".to_string())));
    assert!(!should_restart_auth(&ServerError::AuthError("a".to_string())));
    assert!(!should_restart_auth(&ServerError::ClientError("c".to_string())));
}

#[test]
fn error_message() {
    assert_eq!(ServerError::AuthError("no verifier".to_string()).message(), "no verifier");
    assert_eq!(ServerError::ClientError("bad url".to_string()).message(), "bad url");
    assert_eq!(ServerError::TokenError("down".to_string()).message(), "down");
}
