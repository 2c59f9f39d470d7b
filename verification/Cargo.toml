[package]
name = "vrc-get-repos"
version = "0.1.0"
edition = "2021"
publish = false

[dependencies]
futures = "=0.3.34"
indexmap = { version = "=2.14.2", features = ["serde"] }
log = "=0.4.34"
serde = { version = "=1.0.229", features = ["derive"] }
tokio = { version = "=1.54.1", features = ["fs"] }
url = "=2.5.8"
vrc-get-vpm = "=0.0.17"
