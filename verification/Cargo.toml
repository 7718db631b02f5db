[package]
name = "device_monitor"
version = "0.1.0"
edition = "2021"
publish = false

[dependencies]
bluer = { version = "*", features = ["bluetoothd"] }
env_logger = "*"
futures = "*"
notify-rust = "*"
tokio = { version = "*", features = ["macros", "rt"] }
