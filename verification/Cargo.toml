[package]
name = "csrf_guard"
version = "0.1.0"
edition = "2021"
publish = false

[dependencies]
async-trait = "0.1"
base64 = "0.13"
proc-macro2 = "1"
quote = "1"
rand = "0.8"
rocket = { version = "0.5", default-features = false, features = ["secrets"] }
serde = { version = "1", features = ["derive"] }
syn = { version = "2", features = ["full"] }
thiserror = "1"
