[package]
name = "ssl_checker"
version = "0.1.0"
edition = "2021"
publish = false

[dependencies]
x509-parser = "0.15"
chrono = "0.4"
rustls = "0.20"
webpki-roots = "0.22"
tokio-rustls = "0.23"
tokio = { version = "1", features = ["net", "time", "io-util", "rt-multi-thread", "macros"] }
actix-web = "4"
actix-cors = "0.6"
serde = { version = "1", features = ["derive"] }
