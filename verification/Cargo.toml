[package]
name = "cache_rpc"
version = "0.1.0"
edition = "2021"
publish = false

[dependencies]
serde_json = "1"
bs58 = "*"
base64 = "0.13"
zstd = "*"
serde = { version = "1", features = ["derive"] }
bytes = "*"
tokio = { version = "1", features = ["macros", "time", "sync", "rt-multi-thread"] }
actix-web = "4"
awc = "3"
