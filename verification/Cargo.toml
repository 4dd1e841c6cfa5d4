[package]
name = "nelly"
version = "0.1.0"
edition = "2021"
publish = false

[dependencies]
anyhow = "1"
memmap2 = "0.9"
rustix = { version = "0.38", features = ["fs", "shm"] }
smithay-client-toolkit = { version = "0.19", default-features = false, features = ["calloop"] }
tracing = "0.1"
tracing-subscriber = { version = "0.3", features = ["env-filter"] }
