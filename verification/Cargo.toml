[package]
name = "astral_server"
version = "0.1.0"
edition = "2021"
publish = false

[dependencies]
sha2 = "=0.11.0"
hex = "=0.4.3"
audiotags = "=0.5.0"
id3 = "=1.17.2"
metaflac = "=0.2.8"
mp4ameta = "=0.11.0"
chrono = "=0.4.45"
axum = "*"
tokio = { version = "*", features = ["full"] }
serde = { version = "*", features = ["derive"] }
serde_json = "*"
uuid = { version = "*", features = ["v4", "serde"] }
reqwest = { version = "*", default-features = false, features = ["json"] }
argon2 = "*"
pasetors = "*"
tower-http = { version = "*", features = ["cors"] }
futures-util = "*"
tokio-util = { version = "*", features = ["io"] }
anyhow = "*"
thiserror = "*"
