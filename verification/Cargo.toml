[package]
name = "rats_rs"
version = "0.1.0"
edition = "2021"
publish = false

[dependencies]
tokio = { version = "=1.54.1", default-features = false, features = ["net", "io-util"] }
tokio-rustls = { version = "=0.26.6", default-features = false, features = ["ring", "logging", "tls12"] }
indexmap = "=2.14.2"
log = "=0.4.35"

[dev-dependencies]
tokio = { version = "=1.54.1", default-features = false, features = ["net", "io-util", "rt"] }
