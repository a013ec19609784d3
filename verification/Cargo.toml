[package]
name = "outlet_control"
version = "0.1.0"
edition = "2021"
publish = false

[dependencies]
rppal = "*"
rouille = "*"
serde = { version = "1", features = ["derive"] }
serde_derive = "1"
