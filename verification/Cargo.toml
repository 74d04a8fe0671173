[package]
name = "kb_svc"
version = "0.1.0"
edition = "2021"
publish = false

[dependencies]
uuid = { version = "1", features = ["v4"] }
serde = { version = "1", features = ["derive"] }
serde_json = "1"
toml_edit = "*"
thiserror = "*"
ipc-channel = "*"
