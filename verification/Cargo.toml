[package]
name = "sequencer_engine"
version = "0.1.0"
edition = "2021"
publish = false

[dependencies]
heapless = "=0.8.0"
uuid = { version = "=1.29.0", features = ["v4", "serde"] }
serde = { version = "=1.0.229", features = ["derive"] }
postcard = { version = "=1.1.3", features = ["alloc"] }
arc-swap = "=1.9.3"
egui = "0.31"
