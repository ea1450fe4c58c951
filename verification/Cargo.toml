[package]
name = "rsntp"
version = "4.0.0"
edition = "2021"
publish = false

[dependencies]
chrono = "0.4"
time = "0.3"
tokio = { version = "1", features = ["net", "time"] }
