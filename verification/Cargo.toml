[package]
name = "sui_serde"
version = "0.1.0"
edition = "2021"
publish = false

[dependencies]
roaring = "*"
move-core-types = "*"
serde = { version = "1", features = ["derive"] }
serde_with = "*"
schemars = "*"
