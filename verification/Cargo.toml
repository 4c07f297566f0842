[package]
name = "hyper-rustls"
version = "0.1.0"
edition = "2021"
publish = false

[dependencies]
http = "1"
hyper = { version = "1", default-features = false }
hyper-util = { version = "0.1", default-features = false, features = ["client-legacy", "tokio"] }
rustls = { version = "0.23", default-features = false, features = ["std", "ring"] }
rustls-native-certs = "0.8"
rustls-pki-types = "1"
rustls-platform-verifier = "0.6"
tokio = { version = "1", features = ["net"] }
tokio-rustls = { version = "0.26", default-features = false }
tower-service = "0.3"
webpki-roots = "1"

[dev-dependencies]
rcgen = "0.13"
