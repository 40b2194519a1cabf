[package]
name = "toy_atm"
version = "0.1.0"
edition = "2021"
publish = false

[dependencies]
anyhow = "1"
clap = { version = "4", features = ["derive"] }
csv = "1"
serde = { version = "1", features = ["derive"] }

[dev-dependencies]
proptest = { version = "1", default-features = false, features = ["std"] }
rand = "0.8"
