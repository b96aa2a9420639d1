[package]
name = "finops_engine"
version = "0.1.0"
edition = "2021"
publish = false

[dependencies]
tokio = { version = "*", features = ["sync", "rt-multi-thread", "macros", "time"] }
augurs = { version = "*", features = ["ets"] }
aes-gcm = "*"
sha2 = "*"
rand = "*"
chrono = "*"
