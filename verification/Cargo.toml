[package]
name = "qutecumbr"
version = "0.1.0"
edition = "2021"
publish = false

[dependencies]
image = "*"
qrcode = "*"
serde = { version = "*", features = ["derive"] }
serde_json = "*"
