[package]
name = "bmp180_bridge"
version = "0.1.0"
edition = "2021"
publish = false

[dependencies]
bmp085 = "=0.1.2"
clap = { version = "=4.6.7", features = ["derive"] }
env_logger = "=0.11.11"
i2cdev = "=0.3.2"
log = "=0.4.34"
rumqttc = { version = "=0.24.0", default-features = false }
secrecy = { version = "=0.10.3", features = ["serde"] }
serde = { version = "=1.0.229", features = ["derive"] }
toml = "=0.8.23"

[dev-dependencies]
serde_json = "=1.0.154"
