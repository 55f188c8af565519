[package]
name = "terrasound"
version = "0.1.0"
edition = "2021"
publish = false

[dependencies]
resonator = "=0.1.0"
rodio = { version = "0.17", default-features = false }
