[package]
name = "mpegts_inspector"
version = "0.1.0"
edition = "2021"
publish = false

[dependencies]
crc = "3"
chrono = "0.4"
anyhow = "1"
serde = { version = "1", features = ["derive"] }
serde_json = "1"
socket2 = "*"
clap = { version = "4", features = ["derive"] }
tokio = { version = "1", features = ["net", "rt-multi-thread", "macros", "sync", "time"] }

[dev-dependencies]
