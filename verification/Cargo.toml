[package]
name = "tfls_bootstrap"
version = "0.1.0"
edition = "2021"
publish = false

[dependencies]
serde_json = "=1.0.151"
zip = { version = "=8.6.0", default-features = false, features = ["deflate"] }
anyhow = "=1.0.104"
lapce-plugin = "=0.1.2"
lsp-types = "0.94"
