[package]
name = "tunelo"
version = "0.1.0"
edition = "2021"
publish = false

[dependencies]
url = "2"
httparse = "1"
bytes = "1"
tokio = { version = "1", features = ["full"] }
futures = "0.3"
serde = { version = "1", features = ["derive"] }
serde_json = "1"
toml = "0.5"
clap = { version = "4", features = ["derive"] }
clap_complete = "4"
comfy-table = "7"
tokio-rustls = "0.22"
webpki = "0.21"
webpki-roots = "0.21"
tracing = "0.1"
tracing-subscriber = { version = "0.3", features = ["env-filter"] }
