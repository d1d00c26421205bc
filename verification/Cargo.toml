[package]
name = "meshcat"
version = "0.1.0"
edition = "2021"
publish = false

[dependencies]
base64 = "0.22"
log = "0.4"
nalgebra = { version = "*", features = ["serde-serialize"] }
rmp-serde = "1"
serde = { version = "1", features = ["derive"] }
urdf-rs = "*"
uuid = { version = "1", features = ["v4", "serde"] }
zmq = "0.10"
