[package]
name = "sprout"
version = "0.1.0"
edition = "2021"
publish = false

[dependencies]
rand = "0.8"
serde = { version = "1", features = ["derive"] }
serde_derive = "1"
serde_json = "1"
image = { version = "0.24", default-features = false, features = ["png"] }
