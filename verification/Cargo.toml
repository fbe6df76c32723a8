[package]
name = "sidecar_guard"
version = "0.1.0"
edition = "2021"
publish = false

[dependencies]
sha2 = "*"
nix = { version = "*", features = ["fs", "process", "resource", "sched", "signal", "user"] }
serde = { version = "*", features = ["derive"] }
