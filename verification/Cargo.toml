[package]
name = "playout"
version = "0.1.0"
edition = "2021"
publish = false

[dependencies]
pbkdf2 = "*"
sha2 = "*"
hex = "*"
axum = "*"
axum-extra = { version = "*", features = ["cookie"] }
chrono = { version = "*", features = ["serde"] }
gethostname = "*"
glob = "*"
http = "*"
jsonwebtoken = "*"
log = "*"
log4rs = "*"
rand = "*"
rpassword = "*"
serde = { version = "*", features = ["derive"] }
serde_derive = "*"
serde_json = "*"
time = "*"
tokio = { version = "*", features = ["full"] }
toml = "*"
tower-http = { version = "*", features = ["cors", "fs"] }
tracing-subscriber = "*"
vlc-rs = "*"
walkdir = "*"
