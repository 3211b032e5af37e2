[package]
name = "uv_core"
version = "0.1.0"
edition = "2021"
publish = false

[dependencies]
itertools = "*"
pep508_rs = "*"
reqwest = { version = "0.12", default-features = false, features = ["rustls-tls", "rustls-tls-native-roots"] }
reqwest-middleware = "0.4"
reqwest-retry = "0.7"
serde = { version = "1", features = ["derive"] }
serde_json = "1"
async-trait = "0.1"
http = "1"
