[package]
name = "pgtypes"
version = "0.1.0"
edition = "2021"
publish = false

[dependencies]
byteorder = "1"
hex = "0.4"
futures-core = "0.3"
serde = { version = "1", features = ["derive"] }
serde_json = "1"
syn = "1"
