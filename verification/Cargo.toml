[package]
name = "deployer"
version = "0.1.0"
edition = "2021"
publish = false

[dependencies]
anyhow = "*"
axum = "*"
axum-server = "*"
hex = "*"
hmac = "*"
log = "*"
serde = { version = "*", features = ["derive"] }
serde_json = "*"
sha2 = "*"
subtle = "*"
thiserror = "*"
tokio = { version = "*", features = ["full"] }
toml = "*"
