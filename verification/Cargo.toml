[package]
name = "cookie_game"
version = "0.1.0"
edition = "2021"
publish = false

[dependencies]
axum = "0.7"
cargo-manifest = "*"
leaky-bucket = "1"
parking_lot = "0.12"
rand = "0.8"
serde = { version = "1", features = ["derive"] }
serde_json = "1"
serde_with = "3"
serde_yaml = "0.9"
shuttle-axum = "0.49"
shuttle-runtime = "0.49"
tokio = { version = "1", features = ["macros", "rt-multi-thread"] }
toml = "0.8"
