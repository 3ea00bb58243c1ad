[package]
name = "server_probe"
version = "0.1.0"
edition = "2021"
publish = false

[dependencies]
actix-web = "4"
chrono = { version = "0.4", features = ["serde"] }
serde = { version = "1", features = ["derive"] }
serde_json = "1"
ssh2 = "0.9"
tokio = { version = "1", features = ["net", "time", "rt-multi-thread", "macros"] }
tracing = "0.1"
uuid = { version = "1", features = ["v4", "serde"] }
