//! Core of a small Spotify playlist server: the PKCE authorization flow
//! (code verifier, code challenge, authorization and token URLs), the cached
//! access token with its expiry and refresh decisions, and the server's
//! configuration and routing rules.

pub mod text;
pub mod pkce;
pub mod urls;
pub mod clock;
pub mod error;
pub mod token;
pub mod spotify_client;
pub mod server;
