[package]
name = "selectel_mks"
version = "0.1.0"
edition = "2021"
publish = false

[dependencies]
hyper = { version = "0.14", features = ["full"] }
hyper-rustls = { version = "0.24", features = ["webpki-roots"] }
tokio = { version = "1", features = ["rt", "time"] }
url = "2"

[dev-dependencies]
serde_json = "1"
