[package]
name = "patchwork_search"
version = "0.1.0"
edition = "2021"
publish = false

[dependencies]
rand = "0.8"
rand_xoshiro = "0.6"
regex = "1"
anyhow = "1"
serde = { version = "1", features = ["derive"] }
axum = { version = "0.7", features = ["ws"] }
tokio = { version = "1", features = ["full"] }
tower-http = { version = "0.5", features = ["cors", "timeout", "trace"] }
tracing-subscriber = { version = "0.3", features = ["env-filter"] }
futures-util = { version = "0.3", features = ["sink"] }
lazy_static = "1"
uuid = { version = "1", features = ["v4", "serde"] }
rust-embed = "8"
mime_guess = "2"
itertools = "0.12"
array-init = "2"
