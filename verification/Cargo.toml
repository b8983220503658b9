[package]
name = "jailbox"
version = "0.1.0"
edition = "2021"
publish = false

[dependencies]
anyhow = "1"
axum = "*"
clap = { version = "4", features = ["derive"] }
colored = "*"
rune = "0.13"
serde_json = "1"
tempfile = "3"
tokio = { version = "1", features = ["full"] }
tower = "*"
tower-http = { version = "*", features = ["cors", "fs"] }
uuid = { version = "1", features = ["v4"] }
