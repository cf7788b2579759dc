[package]
name = "decay"
version = "0.1.0"
edition = "2021"
publish = false

[dependencies]
cubob = "*"
schemars = "0.8"
serde = { version = "*", features = ["derive"] }
serde_json = "*"
thiserror = "*"
