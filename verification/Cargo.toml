[package]
name = "bdent_desktop"
version = "0.1.0"
edition = "2021"
publish = false

[dependencies]
axum = "0.7"
local-ip-address = "0.6"
open = "5"
reqwest = { version = "0.12", default-features = false }
serde = { version = "1", features = ["derive"] }
serde_json = "1"
tokio = { version = "1", features = ["macros", "net", "rt-multi-thread", "sync", "time"] }
