[package]
name = "gelf_logger"
version = "0.1.0"
edition = "2021"
publish = false

[dependencies]
log = "*"
native-tls = "*"
serde = { version = "*", features = ["derive"] }
serde_json = "*"
serde_yaml = "*"
