[package]
name = "aether"
version = "0.1.0"
edition = "2021"
publish = false

[dependencies]
whoami = "1"
fuzzy-matcher = "0.3"
ratatui = "0.29"
crossterm = "0.28"
serde = { version = "1", features = ["derive"] }
serde_json = "1"
toml = "0.8"
dirs = "5"
mlua = { version = "0.9", features = ["lua54", "vendored"] }
reqwest = { version = "0.12", default-features = false, features = ["blocking", "json", "rustls-tls"] }
ureq = { version = "2", features = ["json"] }
syntect = { version = "5", default-features = false, features = ["default-fancy"] }
