[package]
name = "pixelblaze_stream"
version = "0.1.0"
edition = "2021"
publish = false

[dependencies]
rand = { version = "0.8", features = ["small_rng"] }
heapless = "*"
edge-ws = "*"
edge-http = "*"
