[package]
name = "lamp_control"
version = "0.1.0"
edition = "2021"
publish = false

[dependencies]
esp-idf-svc = "*"
log = "*"
serde = { version = "*", features = ["derive"] }
serde_json = "*"
