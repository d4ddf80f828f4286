[package]
name = "headsetcontrol-tray"
version = "0.1.0"
edition = "2021"
publish = false

[dependencies]
dirs-next = "2"
ksni = "0.3"
notify-rust = "4"
serde = { version = "1", features = ["derive"] }
serde_json = "1"
tokio = { version = "1", features = ["full"] }
