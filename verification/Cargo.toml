[package]
name = "mqtt_encoder"
version = "0.1.0"
edition = "2021"
publish = false

[dependencies]
anyhow = "1"
rustls = "0.21"
rustls-pemfile = "1"
tokio = { version = "1", features = ["net", "io-util"] }
tokio-rustls = "0.24"
