[package]
name = "kluster"
version = "0.1.0"
edition = "2021"
publish = false

[dependencies]
chrono = { version = "=0.4.45", default-features = false, features = ["std", "serde"] }
hyper = "=0.10.16"
rustls = "0.19"
serde = { version = "=1.0.229", features = ["derive"] }
serde_json = "=1.0.154"
webpki = "0.21"
