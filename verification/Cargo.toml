[package]
name = "anodize"
version = "0.1.0"
edition = "2021"
publish = false

[dependencies]
lazy_static = "=1.5.1"
serde = { version = "=1.0.229", features = ["derive"] }
serde_json = "=1.0.154"
rand = "=0.10.3"
nalgebra = "=0.17.3"
num-traits = "=0.2.19"
k = "=0.32.0"
trajectory = "=0.1.0"
visual-odometry-rs = "=0.1.0"
image = "=0.19.0"
