[package]
name = "spotify_server"
version = "0.1.0"
edition = "2021"
publish = false

[dependencies]
axum = "0.8"
base64 = "0.22"
dotenv = "0.15"
rand = "0.9"
serde = { version = "1", features = ["derive"] }
sha2 = "0.10"
tokio = { version = "1", features = ["macros", "rt-multi-thread", "net", "sync"] }
ureq = { version = "3", features = ["json"] }
url = "2"
