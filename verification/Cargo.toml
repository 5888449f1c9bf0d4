[package]
name = "mqtt_logger"
version = "0.1.0"
edition = "2021"
publish = false

[dependencies]
chrono = "0.4"
env_logger = "*"
paho-mqtt = "*"
serde = { version = "1", features = ["derive"] }
toml = "*"
