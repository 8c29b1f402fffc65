[package]
name = "samla_bridge"
version = "0.1.0"
edition = "2021"
publish = false

[dependencies]
rumqttc = "*"
tokio = { version = "*", features = ["full"] }
