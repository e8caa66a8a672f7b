[package]
name = "kafka_tool_core"
version = "0.1.0"
edition = "2021"
publish = false

[dependencies]
uuid = { version = "*", features = ["v4"] }
kafka = { version = "*", default-features = false }
serde = { version = "*", features = ["derive"] }
serde_json = "*"
