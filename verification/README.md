# spotify_server

A small server that signs a user in to Spotify with the authorization-code
flow and PKCE, keeps the access token fresh in the background, and serves a
playlist route.

- `src/` is the verified library (Verus): PKCE code verifier and challenge
  (`pkce`), URL building through the `url` crate (`urls`, `spotify_client`),
  the cached token and its expiry (`token`, `clock`), the exchange and
  refresh decisions (`spotify_client`), the server's configuration and
  routing rules (`server`), and decimal text (`text`).
- `app/` is the program around it: environment and `.env` loading, the HTTP
  server (axum, tokio), the requests to the token endpoint (ureq), the
  background refresh thread, and the JSON shapes (serde).
- `tests/` runs the library on concrete values.
