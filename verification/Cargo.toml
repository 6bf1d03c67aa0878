[package]
name = "construct_engine"
version = "0.1.0"
edition = "2021"
publish = false

[dependencies]
anyhow = "1"
bytes = "=1.12.1"
get_if_addrs = "0.5"
h3 = "=0.0.8"
h3-quinn = "=0.0.10"
http = "=1.5.0"
quinn = "0.11"
rustls = { version = "0.23", default-features = false, features = ["ring", "std", "logging", "tls12"] }
rustls-native-certs = "0.7"
serde = { version = "1", features = ["derive"] }
thiserror = "1"
tokio = { version = "1", features = ["rt-multi-thread", "macros", "sync", "time", "net"] }
tracing = "0.1"
tracing-subscriber = { version = "0.3", features = ["env-filter"] }
webpki-roots = "0.26"
