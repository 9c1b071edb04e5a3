[package]
name = "awacs"
version = "0.1.0"
edition = "2021"
publish = false

[dependencies]
anyhow = "1"
audiopus = "0.2"
clap = { version = "4", features = ["derive"] }
futures-channel = "0.3"
futures-util = { version = "0.3", features = ["sink"] }
geo = "0.27"
itertools = "0.12"
ogg = "0.9"
once_cell = "1"
reqwest = { version = "0.11", default-features = false, features = ["json", "multipart", "rustls-tls"] }
serde = { version = "1", features = ["derive"] }
serde_json = "1"
stopper = "0.2"
tokio = { version = "1", features = ["full"] }
toml = "0.8"
tracing = "0.1"
tracing-subscriber = { version = "0.3", features = ["env-filter"] }
wav = "1"
