[package]
name = "security_gateway"
version = "0.1.0"
edition = "2021"
publish = false

[dependencies]
chrono = "*"
influxdb2 = "*"
tokio = { version = "*", features = ["macros", "rt-multi-thread", "sync"] }
tonic = "*"
futures = "*"
