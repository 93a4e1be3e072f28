[package]
name = "mqtt_connection"
version = "0.1.0"
edition = "2021"
publish = false

[dependencies]
crossbeam-channel = "*"
futures = "0.1"
mqtt3 = "*"
tokio-core = "0.1"
tokio-io = "0.1"
tokio-timer = "0.1"
