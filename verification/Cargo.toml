[package]
name = "dm_reports"
version = "0.1.0"
edition = "2021"
publish = false

[dependencies]
ed25519-dalek = "*"
axum = "*"
http = "*"
serde_json = "*"
thiserror = "*"
tokio = { version = "*", features = ["full"] }
tracing = "*"
tracing-subscriber = { version = "*", features = ["json"] }
twilight-http = "*"
twilight-model = "*"
twilight-util = { version = "*", features = ["builder", "link"] }
valk-utils = "*"
vss = "*"
