[package]
name = "iot_device"
version = "0.1.0"
edition = "2021"
publish = false

[dependencies]
tokio = { version = "1", features = ["rt-multi-thread", "macros", "time", "sync"] }
rumqttc = "0.24"
prost = "0.13"
prost-types = "0.13"
clap = { version = "4", features = ["derive"] }
