[package]
name = "jetson_flash"
version = "1.0.0"
edition = "2021"
publish = false

[dependencies]
figment = { version = "0.10", features = ["toml", "env"] }
serde = { version = "1", features = ["derive"] }
uuid = { version = "1", features = ["v4"] }
thiserror = "1"
anyhow = "1"
clap = { version = "4", features = ["derive"] }
chrono = "0.4"
indicatif = "0.17"
rusb = "0.9"
