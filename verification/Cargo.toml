[package]
name = "kcl_lib"
version = "0.1.0"
edition = "2021"
publish = false

[dependencies]
kittycad = { version = "0.3", default-features = false }
serde = { version = "=1.0.229", features = ["derive"] }
serde_json = "=1.0.154"
uuid = { version = "=1.29.0", features = ["v4", "serde"] }
