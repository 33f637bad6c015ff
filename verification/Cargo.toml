[package]
name = "timekeeper"
version = "0.1.0"
edition = "2021"
publish = false

[dependencies]
affinity = "*"
anyhow = "*"
blake3 = "*"
chrono = "*"
crossterm = "*"
hex = "*"
lazy_static = "*"
num_cpus = "*"
rand = "0.9"
ring = "*"
serde = { version = "*", features = ["derive"] }
serde_json = "*"
sha2 = "*"
thread-priority = "*"
