[package]
name = "loftr"
version = "0.1.0"
edition = "2021"
publish = false

[dependencies]
tch = "*"
num-traits = "*"
serde = { version = "1", features = ["derive"] }
thiserror = "*"
