[package]
name = "mqtt_subscriber"
version = "0.1.0"
edition = "2021"
publish = false

[dependencies]
rumqttc = "0.24"
rustls-pemfile = "2"
rustls-pki-types = "1"
serde = { version = "1", features = ["derive"] }
serde_yaml = "0.9"
tokio = { version = "1", features = ["rt-multi-thread", "macros", "time"] }
