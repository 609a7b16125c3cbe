[package]
name = "spaceapi"
version = "0.8.1"
edition = "2021"
publish = false

[dependencies]
log = "0.4"
rustc-serialize = "0.3"
serde = { version = "1", features = ["derive"] }
serde_json = { version = "1", features = ["preserve_order"] }
thiserror = "1"
