[package]
name = "cardpong"
version = "0.1.0"
edition = "2021"
publish = false

[dependencies]
bincode = "1.3"
csv = "1"
meshtext = "0.3"
renet = { version = "0.0.15", features = ["serde"] }
serde = { version = "1", features = ["derive"] }
thiserror = "1"
webbrowser = "0.8"
