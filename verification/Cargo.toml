[package]
name = "camera_calibration"
version = "0.1.0"
edition = "2021"
publish = false

[dependencies]
clap = { version = "*", features = ["derive"] }
opencv = "*"
rayon = "*"
serde = { version = "*", features = ["derive"] }
serde_json = "*"
