[package]
name = "alarm_sync"
version = "0.1.0"
edition = "2021"
publish = false

[dependencies]
bincode = "1"
reqwest = { version = "*", default-features = false }
tokio = { version = "*", features = ["macros", "rt-multi-thread", "time"] }
