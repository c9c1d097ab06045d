[package]
name = "zed_flutter"
version = "0.1.0"
edition = "2021"
publish = false

[dependencies]
anyhow = "1"
lsp-server = "0.7"
lsp-types = "0.95"
serde = { version = "1", features = ["derive"] }
serde_json = "1"
tracing = "0.1"
tracing-subscriber = { version = "0.3", features = ["env-filter"] }
which = "6"
zed_extension_api = "0.6"
