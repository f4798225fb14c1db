[package]
name = "fluent_bit_matchy"
version = "0.1.0"
edition = "2021"
publish = false

[dependencies]
matchy = "*"
matchy-extractor = "*"
serde = { version = "1", features = ["derive"] }
serde_json = { version = "1", features = ["preserve_order"] }
serde_yml = "*"
