[package]
name = "chat_core"
version = "0.1.0"
edition = "2021"
publish = false

[dependencies]
bytes = "1"
clap = "4"
futures = "0.3"
futures-util = "0.3"
tokio = { version = "1", features = ["rt-multi-thread", "macros", "net", "sync", "signal", "io-util"] }
tokio-util = { version = "0.7", features = ["codec"] }
