[package]
name = "well_known"
version = "0.1.0"
edition = "2021"
publish = false

[dependencies]
failure = { version = "=0.1.8", default-features = false, features = ["std"] }
itertools = "=0.8.2"
rocket = { version = "=0.5.2", features = ["json"] }
serde_json = "=1.0.154"
