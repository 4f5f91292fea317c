[package]
name = "rhome"
version = "0.1.0"
edition = "2021"
publish = false

[dependencies]
chrono = "0.4"
esphome = "*"
termion = "*"
tokio = { version = "1", features = ["full"] }
uuid = "1"
yaml-rust = "0.4"
