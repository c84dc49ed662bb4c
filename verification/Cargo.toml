[package]
name = "gmf"
version = "0.1.0"
edition = "2021"
publish = false

[dependencies]
num_cpus = "1"
log = "0.4"
glommio = "0.8"
hyper = { version = "0.14", features = ["http2", "server"] }
tokio = { version = "1", features = ["io-util"] }
futures-lite = "1"
pin-project = "1"
tower-service = "0.3"
