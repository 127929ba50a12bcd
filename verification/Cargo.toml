[package]
name = "rmanki"
version = "0.1.0"
edition = "2021"
publish = false

[dependencies]
zip = "=8.6.0"
serde_json = "=1.0.151"
uuid = "=1.27.0"
genanki-rs = "=0.4.0"
clap = { version = "=4.6.7", features = ["derive"] }
