[package]
name = "robot_boilerplate"
version = "0.1.0"
edition = "2021"
publish = false

[dependencies]
frcrs = "=0.1.6"
nalgebra = "=0.32.6"
serde = { version = "=1.0.229", features = ["derive"] }
serde_json = "=1.0.154"
tokio = { version = "=1.54.1", features = ["full"] }
uom = "=0.35.0"
