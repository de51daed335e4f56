[package]
name = "libstealthtech"
version = "0.1.0"
edition = "2021"
publish = false

[dependencies]
uuid = "1"
hex = "0.4"
pulldown-cmark = { version = "0.13", default-features = false, features = ["html"] }
mime_guess = "2"
serde = { version = "1", features = ["derive"] }
serde_json = "1"
thiserror = "2"
clap = { version = "4", features = ["derive"] }
tokio = { version = "1", features = ["full"] }
btleplug = "0.11"
axum = { version = "0.8", features = ["ws"] }
tower-http = { version = "0.6", features = ["cors"] }
rust-embed = "8"
futures = "0.3"
tracing = "0.1"
tracing-subscriber = { version = "0.3", features = ["env-filter"] }
anyhow = "1"
chrono = "0.4"
wasm-bindgen = "0.2"
