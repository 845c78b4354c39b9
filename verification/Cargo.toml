[package]
name = "clip_engine"
version = "0.1.0"
edition = "2021"
publish = false

[dependencies]
crossbeam-channel = "=0.5.17"
smallvec = "=1.16.4"
slug = "=0.1.6"
nanoid = "=0.4.0"
reaper-low = "=0.1.0"
reaper-medium = "=0.1.0"
serde = { version = "1", features = ["derive"] }
