[package]
name = "educore-communication"
version = "0.1.0"
edition = "2021"
publish = false

[dependencies]
chrono = { version = "0.4", default-features = false, features = ["std", "clock"] }
uuid = { version = "1", features = ["v5", "v7"] }
async-trait = "0.1"
thiserror = "2"
