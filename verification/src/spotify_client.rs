//! The Spotify authorization client: the authorization URL of the PKCE
//! flow, the exchange of the authorization code for tokens, and the
//! decisions of the background token refresh. The requests themselves are
//! sent by the caller; this module decides what is sent and what the
//! answers do to the cached token.

use vstd::prelude::*;
use vstd::string::*;
use crate::error::ServerError;
use crate::pkce::{build_code_challenge, code_challenge_of, is_challenge_shaped, is_code_verifier};
use crate::clock::Timestamp;
use crate::token::{AccessTokenResponse, CachedAccessToken, can_store_at, expiry_instant};
use crate::urls::{
    parse_error_text, parse_url, parse_url_with_params, query_fits, url_parse,
    url_parse_with_params, url_query_fits,
};

verus! {

/// Host of Spotify's accounts service.
pub const SPOTIFY_AUTH_BASE_URL: &'static str = "accounts.spotify.com";

/// Path of the user authorization endpoint.
pub const SPOTIFY_USER_AUTH_ENDPOINT: &'static str = "/authorize";

/// Path of the access token endpoint.
pub const SPOTIFY_ACCESS_TOKEN_ENDPOINT: &'static str = "/api/token";

/// Scopes the server asks the user for.
pub const SPOTIFY_API_SCOPES: &'static str = "playlist-read-private playlist-read-collaborative";

/// The query parameters of the redirect to the server after the user logged in.
pub struct SpotifyAuthCallbackParams {
    pub code: String,
    pub state: Option<String>,
}

/// A form to post to the token endpoint.
pub struct TokenRequest {
    pub url: String,
    pub form: Vec<(String, String)>,
}

/// What came of posting a form to the token endpoint.
pub enum TokenExchangeOutcome {
    /// The endpoint answered with a token.
    Received(AccessTokenResponse),
    /// The endpoint answered, but the body is not a token response.
    Unreadable,
    /// The request failed; the text describes the failure.
    Failed(String),
}

/// What woke the background refresh up.
pub enum RefreshTick {
    /// The client asked the refresh to stop.
    ShutdownRequested,
    /// The client is gone.
    ChannelClosed,
    /// The waiting period passed without a message.
    TimedOut,
}

/// What the background refresh does on waking up.
pub enum RefreshPlan {
    /// Stop refreshing for good.
    Stop,
    /// The access token is still valid: wait again.
    Idle,
    /// The access token expired but there is no refresh token: wait again.
    NoRefreshToken,
    /// The token endpoint's URL could not be built: wait again.
    UrlError(String),
    /// Post this refresh request.
    Send(TokenRequest),
}

/// The text of an `https` URL on a host and path.
pub open spec fn https_url(host: Seq<char>, path: Seq<char>) -> Seq<char> {
    "https://"@ + host + path
}

/// The URL text of the user authorization endpoint.
pub open spec fn authorize_url_text() -> Seq<char> {
    https_url(SPOTIFY_AUTH_BASE_URL@, SPOTIFY_USER_AUTH_ENDPOINT@)
}

/// The URL text of the access token endpoint.
pub open spec fn token_url_text() -> Seq<char> {
    https_url(SPOTIFY_AUTH_BASE_URL@, SPOTIFY_ACCESS_TOKEN_ENDPOINT@)
}

/// The query of the authorization URL, in order.
pub open spec fn authorization_params(
    client_id: Seq<char>,
    redirect_uri: Seq<char>,
    code_challenge: Seq<char>,
) -> Seq<(Seq<char>, Seq<char>)> {
    seq![
        ("client_id"@, client_id),
        ("response_type"@, "code"@),
        ("redirect_uri"@, redirect_uri),
        ("scope"@, SPOTIFY_API_SCOPES@),
        ("code_challenge_method"@, "S256"@),
        ("code_challenge"@, code_challenge),
    ]
}

/// The authorize URL parses, and the `url` crate can append the query for
/// this client and code challenge to it.
pub open spec fn authorization_fits(
    client_id: Seq<char>,
    redirect_uri: Seq<char>,
    code_challenge: Seq<char>,
) -> bool {
    url_parse(authorize_url_text()) matches Some(s) && url_query_fits(
        s,
        authorization_params(client_id, redirect_uri, code_challenge),
    )
}

/// The authorization URL can be built for every code challenge this
/// library draws (43 URL-safe Base64 characters).
pub open spec fn authorization_always_fits(client_id: Seq<char>, redirect_uri: Seq<char>) -> bool {
    forall|c: Seq<char>| is_challenge_shaped(c) ==> #[trigger] authorization_fits(client_id, redirect_uri, c)
}

/// The form that exchanges an authorization code for tokens.
pub open spec fn authorization_code_form(
    code: Seq<char>,
    redirect_uri: Seq<char>,
    client_id: Seq<char>,
    code_verifier: Seq<char>,
) -> Seq<(Seq<char>, Seq<char>)> {
    seq![
        ("grant_type"@, "authorization_code"@),
        ("code"@, code),
        ("redirect_uri"@, redirect_uri),
        ("client_id"@, client_id),
        ("code_verifier"@, code_verifier),
    ]
}

/// The form that exchanges a refresh token for new tokens.
pub open spec fn refresh_form(refresh_token: Seq<char>, client_id: Seq<char>) -> Seq<
    (Seq<char>, Seq<char>),
> {
    seq![("grant_type"@, "refresh_token"@), ("refresh_token"@, refresh_token), ("client_id"@, client_id)]
}

/// The message of a token URL that could not be built: a fixed prefix, then
/// the parser's own text.
pub open spec fn is_token_url_error(m: Seq<char>) -> bool {
    exists|detail: Seq<char>| m == "Error building access token URL: "@ + detail
}

fn https_url_string(host: &str, path: &str) -> (s: String)
    ensures
        s@ == https_url(host@, path@),
{
    let mut s = "https://".to_owned();
    s.append(host);
    s.append(path);
    s
}

fn form_pair(name: &str, value: &str) -> (p: (String, String))
    ensures
        p.0@ == name@,
        p.1@ == value@,
{
    (name.to_owned(), value.to_owned())
}

/// Builds the URL of the access token endpoint.
pub fn get_spotify_token_url() -> (r: Result<String, String>)
    ensures
        r is Ok <==> url_parse(token_url_text()) is Some,
        r matches Ok(u) ==> url_parse(token_url_text()) == Some(u@),
        r matches Err(m) ==> is_token_url_error(m@),
{
    let text = https_url_string(SPOTIFY_AUTH_BASE_URL, SPOTIFY_ACCESS_TOKEN_ENDPOINT);
    match parse_url(text.as_str()) {
        Ok(url) => Ok(url),
        Err(error) => {
            let detail = parse_error_text(&error);
            let mut m = "Error building access token URL: ".to_owned();
            m.append(detail.as_str());
            assert(m@ == "Error building access token URL: "@ + detail@);
            Err(m)
        },
    }
}

/// The authorization client: its registered id, the URI Spotify redirects
/// the user to, and the cached token.
pub struct SpotifyClient {
    pub client_id: String,
    pub cached_access_token: CachedAccessToken,
    pub server_redirect_uri: String,
}

impl SpotifyClient {
    /// A client with an empty token cache.
    pub fn new(client_id: String, server_redirect_uri: &str) -> (c: Self)
        ensures
            c.client_id == client_id,
            c.server_redirect_uri@ == server_redirect_uri@,
            c.cached_access_token.is_cleared(),
    {
        SpotifyClient {
            client_id,
            cached_access_token: CachedAccessToken::new(),
            server_redirect_uri: server_redirect_uri.to_owned(),
        }
    }

    /// Empties the token cache before a new authorization flow.
    pub fn reset_spotify_access_token(&mut self)
        ensures
            final(self).cached_access_token.is_cleared(),
            final(self).client_id == old(self).client_id,
            final(self).server_redirect_uri == old(self).server_redirect_uri,
    {
        self.cached_access_token = CachedAccessToken::new();
    }

    /// The query pairs of the authorization URL, in order.
    fn authorization_params_vec(&self, code_challenge: &str) -> (params: Vec<(String, String)>)
        ensures
            params.deep_view() == authorization_params(
                self.client_id@,
                self.server_redirect_uri@,
                code_challenge@,
            ),
    {
        let params = vec![
            form_pair("client_id", self.client_id.as_str()),
            form_pair("response_type", "code"),
            form_pair("redirect_uri", self.server_redirect_uri.as_str()),
            form_pair("scope", SPOTIFY_API_SCOPES),
            form_pair("code_challenge_method", "S256"),
            form_pair("code_challenge", code_challenge),
        ];
        assert(params.deep_view() =~= authorization_params(
            self.client_id@,
            self.server_redirect_uri@,
            code_challenge@,
        ));
        params
    }

    /// Builds the authorization URL for a given code challenge. It fails
    /// where the authorize URL does not parse, or where the `url` crate could
    /// not append the query without overflowing its 32-bit positions (see
    /// `url_query_fits`).
    pub fn authorization_url_for(&self, code_challenge: &str) -> (r: Result<String, String>)
        ensures
            r is Ok <==> authorization_fits(
                self.client_id@,
                self.server_redirect_uri@,
                code_challenge@,
            ),
            r matches Ok(u) ==> u@ == url_parse_with_params(
                authorize_url_text(),
                authorization_params(self.client_id@, self.server_redirect_uri@, code_challenge@),
            ),
            r matches Err(m) ==> m@ == "Unable to build authorization URL"@,
    {
        let base = https_url_string(SPOTIFY_AUTH_BASE_URL, SPOTIFY_USER_AUTH_ENDPOINT);
        let params = self.authorization_params_vec(code_challenge);
        match parse_url(base.as_str()) {
            Ok(parsed) => {
                if !query_fits(parsed.as_str(), &params) {
                    return Err("Unable to build authorization URL".to_owned());
                }
            },
            Err(_) => {
                return Err("Unable to build authorization URL".to_owned());
            },
        }
        match parse_url_with_params(base.as_str(), &params) {
            Ok(url) => Ok(url),
            Err(_) => Err("Unable to build authorization URL".to_owned()),
        }
    }

    /// Draws a fresh code verifier and builds the authorization URL that
    /// carries its code challenge; returns the URL and the verifier.
    pub fn get_spotify_auth_url(&self) -> (r: Result<(String, String), String>)
        ensures
            r is Err ==> !authorization_always_fits(self.client_id@, self.server_redirect_uri@),
            r matches Ok((url, verifier)) ==> authorization_fits(
                self.client_id@,
                self.server_redirect_uri@,
                code_challenge_of(verifier@),
            ),
            r matches Ok((url, verifier)) ==> is_code_verifier(verifier@) && url@
                == url_parse_with_params(
                authorize_url_text(),
                authorization_params(
                    self.client_id@,
                    self.server_redirect_uri@,
                    code_challenge_of(verifier@),
                ),
            ),
            r matches Err(m) ==> m@ == "Unable to build authorization URL"@,
    {
        match build_code_challenge() {
            Ok((code_verifier, code_challenge)) => {
                match self.authorization_url_for(code_challenge.as_str()) {
                    Ok(url) => Ok((url, code_verifier)),
                    Err(m) => Err(m),
                }
            },
            Err(()) => Err("Error building code challenge".to_owned()),
        }
    }

    /// Starts a new authorization flow: empties the token cache, draws a
    /// fresh code verifier and keeps it, and returns the authorization URL
    /// to show the user. On an error the cache stays empty.
    pub fn start_client_auth(&mut self) -> (r: Result<String, String>)
        ensures
            final(self).client_id == old(self).client_id,
            final(self).server_redirect_uri == old(self).server_redirect_uri,
            r is Err ==> !authorization_always_fits(old(self).client_id@, old(self).server_redirect_uri@),
            r matches Ok(url) ==> {
                &&& final(self).cached_access_token.code_verifier matches Some(v)
                &&& is_code_verifier(v@)
                &&& url@ == url_parse_with_params(
                    authorize_url_text(),
                    authorization_params(
                        old(self).client_id@,
                        old(self).server_redirect_uri@,
                        code_challenge_of(v@),
                    ),
                )
                &&& final(self).cached_access_token.access_token is None
                &&& final(self).cached_access_token.refresh_token is None
                &&& final(self).cached_access_token.expires_at.value() == 0
            },
            r matches Err(m) ==> (final(self).cached_access_token.is_cleared() && m@
                == "Unable to build authorization URL"@),
    {
        self.reset_spotify_access_token();
        match self.get_spotify_auth_url() {
            Ok((url, code_verifier)) => {
                self.cached_access_token.code_verifier = Some(code_verifier);
                Ok(url)
            },
            Err(m) => Err(m),
        }
    }

    /// Decides what to post to the token endpoint when the user comes back
    /// with an authorization code: the code, with the code verifier of the
    /// flow. It fails when the token URL cannot be built, or when no flow
    /// was started (no code verifier is cached).
    pub fn prepare_token_exchange(&self, params: &SpotifyAuthCallbackParams) -> (r: Result<
        TokenRequest,
        ServerError,
    >)
        ensures
            url_parse(token_url_text()) is None ==> (r matches Err(ServerError::ClientError(m))
                && is_token_url_error(m@)),
            url_parse(token_url_text()) matches Some(u) ==> match self.cached_access_token.code_verifier {
                None => r matches Err(ServerError::AuthError(m)) && m@
                    == "Code verifier not found in cached access token"@,
                Some(v) => r matches Ok(request) && request.url@ == u && request.form.deep_view()
                    == authorization_code_form(
                    params.code@,
                    self.server_redirect_uri@,
                    self.client_id@,
                    v@,
                ),
            },
    {
        match get_spotify_token_url() {
            Ok(token_url) => match &self.cached_access_token.code_verifier {
                Some(code_verifier) => {
                    let form = vec![
                        form_pair("grant_type", "authorization_code"),
                        form_pair("code", params.code.as_str()),
                        form_pair("redirect_uri", self.server_redirect_uri.as_str()),
                        form_pair("client_id", self.client_id.as_str()),
                        form_pair("code_verifier", code_verifier.as_str()),
                    ];
                    assert(form.deep_view() =~= authorization_code_form(
                        params.code@,
                        self.server_redirect_uri@,
                        self.client_id@,
                        code_verifier@,
                    ));
                    Ok(TokenRequest { url: token_url, form })
                },
                None => Err(
                    ServerError::AuthError(
                        "Code verifier not found in cached access token".to_owned(),
                    ),
                ),
            },
            Err(m) => Err(ServerError::ClientError(m)),
        }
    }

    /// Takes in the token endpoint's answer to an authorization code
    /// exchange, received at `now`. A token is stored; an unreadable answer
    /// changes nothing; a failed request is reported as a token error.
    pub fn finish_token_exchange(&mut self, outcome: TokenExchangeOutcome, now: Timestamp) -> (r: Result<
        (),
        ServerError,
    >)
        requires
            outcome matches TokenExchangeOutcome::Received(response) ==> can_store_at(response, now),
        ensures
            final(self).client_id == old(self).client_id,
            final(self).server_redirect_uri == old(self).server_redirect_uri,
            final(self).cached_access_token.code_verifier == old(self).cached_access_token.code_verifier,
            match outcome {
                TokenExchangeOutcome::Received(response) => {
                    &&& r is Ok
                    &&& final(self).cached_access_token.access_token == Some(response.access_token)
                    &&& final(self).cached_access_token.refresh_token == Some(response.refresh_token)
                    &&& final(self).cached_access_token.expires_at.value() == expiry_instant(now, response.expires_in)
                },
                TokenExchangeOutcome::Unreadable => r is Ok && final(self).cached_access_token
                    == old(self).cached_access_token,
                TokenExchangeOutcome::Failed(e) => {
                    &&& r matches Err(ServerError::TokenError(m))
                    &&& m@ == "Error processing access token response: "@ + e@
                    &&& final(self).cached_access_token == old(self).cached_access_token
                },
            },
    {
        match outcome {
            TokenExchangeOutcome::Received(response) => {
                self.cached_access_token.store_response(&response, &now);
                Ok(())
            },
            TokenExchangeOutcome::Unreadable => Ok(()),
            TokenExchangeOutcome::Failed(e) => {
                let mut m = "Error processing access token response: ".to_owned();
                m.append(e.as_str());
                Err(ServerError::TokenError(m))
            },
        }
    }

    /// Decides what the background refresh does on waking up at `now`:
    /// stop when asked to or when the client is gone; otherwise refresh an
    /// expired access token with the refresh token, if there is one.
    pub fn plan_token_refresh(&self, tick: RefreshTick, now: Timestamp) -> (r: RefreshPlan)
        ensures
            match tick {
                RefreshTick::ShutdownRequested | RefreshTick::ChannelClosed => r is Stop,
                RefreshTick::TimedOut => if !self.cached_access_token.expired_at(now) {
                    r is Idle
                } else {
                    match self.cached_access_token.refresh_token {
                        None => r is NoRefreshToken,
                        Some(refresh_token) => match url_parse(token_url_text()) {
                            None => r matches RefreshPlan::UrlError(m) && is_token_url_error(m@),
                            Some(u) => r matches RefreshPlan::Send(request) && request.url@ == u
                                && request.form.deep_view() == refresh_form(
                                refresh_token@,
                                self.client_id@,
                            ),
                        },
                    }
                },
            },
    {
        match tick {
            RefreshTick::ShutdownRequested => RefreshPlan::Stop,
            RefreshTick::ChannelClosed => RefreshPlan::Stop,
            RefreshTick::TimedOut => {
                if !self.cached_access_token.is_expired_at(&now) {
                    return RefreshPlan::Idle;
                }
                match &self.cached_access_token.refresh_token {
                    None => RefreshPlan::NoRefreshToken,
                    Some(refresh_token) => {
                        let form = vec![
                            form_pair("grant_type", "refresh_token"),
                            form_pair("refresh_token", refresh_token.as_str()),
                            form_pair("client_id", self.client_id.as_str()),
                        ];
                        assert(form.deep_view() =~= refresh_form(refresh_token@, self.client_id@));
                        match get_spotify_token_url() {
                            Ok(token_url) => RefreshPlan::Send(TokenRequest { url: token_url, form }),
                            Err(m) => RefreshPlan::UrlError(m),
                        }
                    },
                }
            },
        }
    }

    /// Takes in the token endpoint's answer to a refresh, received at `now`.
    /// A token is stored; an unreadable answer forgets both tokens; a failed
    /// request changes nothing.
    pub fn finish_token_refresh(&mut self, outcome: TokenExchangeOutcome, now: Timestamp)
        requires
            outcome matches TokenExchangeOutcome::Received(response) ==> can_store_at(response, now),
        ensures
            final(self).client_id == old(self).client_id,
            final(self).server_redirect_uri == old(self).server_redirect_uri,
            final(self).cached_access_token.code_verifier == old(self).cached_access_token.code_verifier,
            match outcome {
                TokenExchangeOutcome::Received(response) => {
                    &&& final(self).cached_access_token.access_token == Some(response.access_token)
                    &&& final(self).cached_access_token.refresh_token == Some(response.refresh_token)
                    &&& final(self).cached_access_token.expires_at.value() == expiry_instant(now, response.expires_in)
                },
                TokenExchangeOutcome::Unreadable => {
                    &&& final(self).cached_access_token.access_token is None
                    &&& final(self).cached_access_token.refresh_token is None
                    &&& final(self).cached_access_token.expires_at == old(self).cached_access_token.expires_at
                },
                TokenExchangeOutcome::Failed(_) => final(self).cached_access_token
                    == old(self).cached_access_token,
            },
    {
        match outcome {
            TokenExchangeOutcome::Received(response) => {
                self.cached_access_token.store_response(&response, &now);
            },
            TokenExchangeOutcome::Unreadable => {
                self.cached_access_token.clear_tokens();
            },
            TokenExchangeOutcome::Failed(_) => {},
        }
    }
}

/// The PKCE pairing of a flow: the code exchange posts exactly the cached
/// code verifier whose S256 challenge the authorization URL carried, and
/// both name the same client id and redirect URI.
pub proof fn lemma_exchange_pairs_with_authorization(client: SpotifyClient, code: Seq<char>)
    requires
        client.cached_access_token.code_verifier is Some,
    ensures
        ({
            let verifier = client.cached_access_token.code_verifier->0@;
            let params = authorization_params(
                client.client_id@,
                client.server_redirect_uri@,
                code_challenge_of(verifier),
            );
            let form = authorization_code_form(
                code,
                client.server_redirect_uri@,
                client.client_id@,
                verifier,
            );
            &&& params[4] == ("code_challenge_method"@, "S256"@)
            &&& params[5].0 == "code_challenge"@
            &&& form[4].0 == "code_verifier"@
            &&& params[5].1 == code_challenge_of(form[4].1)
            &&& params[0] == form[3]
            &&& params[2] == form[2]
        }),
{
}

/// The authorization query asks for an authorization code with the S256
/// method, for the fixed playlist scopes, whatever the client, redirect URI
/// and challenge; the client id, redirect URI and challenge go in unchanged.
pub proof fn lemma_authorization_query(
    client_id: Seq<char>,
    redirect_uri: Seq<char>,
    code_challenge: Seq<char>,
)
    ensures
        ({
            let q = authorization_params(client_id, redirect_uri, code_challenge);
            &&& q.len() == 6
            &&& q[0] == ("client_id"@, client_id)
            &&& q[1] == ("response_type"@, "code"@)
            &&& q[2] == ("redirect_uri"@, redirect_uri)
            &&& q[3] == ("scope"@, "playlist-read-private playlist-read-collaborative"@)
            &&& q[4] == ("code_challenge_method"@, "S256"@)
            &&& q[5] == ("code_challenge"@, code_challenge)
        }),
{
}

/// The code exchange posts the authorization code, redirect URI, client id
/// and code verifier unchanged, under the `authorization_code` grant.
pub proof fn lemma_authorization_code_form(
    code: Seq<char>,
    redirect_uri: Seq<char>,
    client_id: Seq<char>,
    code_verifier: Seq<char>,
)
    ensures
        ({
            let f = authorization_code_form(code, redirect_uri, client_id, code_verifier);
            &&& f.len() == 5
            &&& f[0] == ("grant_type"@, "authorization_code"@)
            &&& f[1] == ("code"@, code)
            &&& f[2] == ("redirect_uri"@, redirect_uri)
            &&& f[3] == ("client_id"@, client_id)
            &&& f[4] == ("code_verifier"@, code_verifier)
        }),
{
}

/// The refresh posts the cached refresh token and the client id unchanged,
/// under the `refresh_token` grant.
pub proof fn lemma_refresh_form(refresh_token: Seq<char>, client_id: Seq<char>)
    ensures
        ({
            let f = refresh_form(refresh_token, client_id);
            &&& f.len() == 3
            &&& f[0] == ("grant_type"@, "refresh_token"@)
            &&& f[1] == ("refresh_token"@, refresh_token)
            &&& f[2] == ("client_id"@, client_id)
        }),
{
}

} // verus!
