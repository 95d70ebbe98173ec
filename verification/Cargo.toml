[package]
name = "esp32_hal"
version = "0.1.0"
edition = "2021"
publish = false

[dependencies]
spin = "0.5"
nb = "0.1"
embedded-hal = { version = "0.2", features = ["unproven"] }
esp32 = "*"
