[package]
name = "workshop_cache"
version = "0.1.0"
edition = "2021"
publish = false

[dependencies]
bincode = { version = "*", features = ["derive"] }
futures-util = "*"
lexopt = "*"
rustc-hash = "*"
serde = { version = "*", features = ["derive"] }
serde_json = "*"
steamworks = "*"
tokio = { version = "*", features = ["macros", "rt-multi-thread", "sync", "time"] }
