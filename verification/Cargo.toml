[package]
name = "lumen"
version = "0.1.0"
edition = "2021"
publish = false

[dependencies]
rosc = "*"
rppal = "*"
rocket = { version = "0.5", features = ["json"] }
serde = { version = "1", features = ["derive"] }
yansi = "*"
