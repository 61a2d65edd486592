[package]
name = "multiplex-tonic-hyper"
version = "0.1.0"
edition = "2021"
publish = false

[dependencies]
futures = "0.3"
hyper = { version = "0.14", features = ["full"] }
pin-project = "1"
tower = { version = "0.4", features = ["make", "util"] }

[dev-dependencies]
tokio = { version = "1", features = ["rt", "macros", "time"] }
