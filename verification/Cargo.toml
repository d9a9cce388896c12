[package]
name = "serde_utils"
version = "0.1.0"
edition = "2021"
publish = false

[dependencies]
serde = "1"
rust_decimal = { version = "1", features = ["serde-with-float", "serde-with-str"] }
secrecy = "0.10"

[dev-dependencies]
serde_json = "1"
