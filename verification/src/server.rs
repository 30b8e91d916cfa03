//! The server's configuration and routing rules: the port it listens on,
//! the addresses built from it, and what a failed authorization callback
//! leads to.

use vstd::prelude::*;
use vstd::string::*;
use crate::error::ServerError;
use crate::text::{decimal, decimal_text, parse_u16, parse_u16_spec};

verus! {

/// Environment variable that holds the port the server listens on.
pub const SERVER_CONFIG_PORT_KEY: &'static str = "SERVER_PORT";

/// Route of Spotify's redirect after the user logged in.
pub const SPOTIFY_CALLBACK_PATH: &'static str = "/callback";

/// Route that lists the user's playlists.
pub const LIST_PLAYLISTS_PATH: &'static str = "/playlists";

/// The loopback address the server binds to.
pub const SERVER_HOST: &'static str = "127.0.0.1";

/// The server's settings.
pub struct ServerConfig {
    pub server_port: u16,
}

/// The address `host:port` for the server's port.
pub open spec fn bind_address_text(port: u16) -> Seq<char> {
    SERVER_HOST@ + ":"@ + decimal(port as nat)
}

/// The URI Spotify redirects the user to: the callback route on the
/// server's loopback address and port.
pub open spec fn redirect_uri_text(port: u16) -> Seq<char> {
    "http://"@ + bind_address_text(port) + SPOTIFY_CALLBACK_PATH@
}

impl ServerConfig {
    /// Reads the configuration from the text of the port variable; `None`
    /// where the text is not a port number as `str::parse::<u16>` reads it.
    pub fn from_port_text(port_text: &str) -> (r: Option<ServerConfig>)
        ensures
            match parse_u16_spec(port_text@) {
                Some(port) => r matches Some(config) && config.server_port == port,
                None => r is None,
            },
    {
        match parse_u16(port_text) {
            Some(server_port) => Some(ServerConfig { server_port }),
            None => None,
        }
    }

    /// The address the server listens on, `127.0.0.1:<port>`.
    pub fn bind_address(&self) -> (s: String)
        ensures
            s@ == bind_address_text(self.server_port),
    {
        let mut s = SERVER_HOST.to_owned();
        s.append(":");
        let port = decimal_text(self.server_port);
        s.append(port.as_str());
        s
    }

    /// The redirect URI registered for the callback,
    /// `http://127.0.0.1:<port>/callback`.
    pub fn redirect_uri(&self) -> (s: String)
        ensures
            s@ == redirect_uri_text(self.server_port),
    {
        let mut s = "http://".to_owned();
        let address = self.bind_address();
        s.append(address.as_str());
        s.append(SPOTIFY_CALLBACK_PATH);
        assert(s@ =~= redirect_uri_text(self.server_port));
        s
    }
}

/// Whether a failed authorization callback starts the authorization flow
/// over: it does exactly when the token endpoint failed.
pub fn should_restart_auth(error: &ServerError) -> (r: bool)
    ensures
        r <==> error is TokenError,
{
    match error {
        ServerError::TokenError(_) => true,
        _ => false,
    }
}

/// The body of the playlist route.
pub fn list_playlists() -> (s: String)
    ensures
        s@ == "List of playlists"@,
{
    "List of playlists".to_owned()
}

} // verus!
