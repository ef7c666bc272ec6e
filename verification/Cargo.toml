[package]
name = "rps_core"
version = "0.1.0"
edition = "2021"
publish = false

[dependencies]
tokio = { version = "1", features = ["rt", "net", "time", "io-std", "io-util", "macros"] }
futures = "0.3"
clap = { version = "4", features = ["derive"] }
