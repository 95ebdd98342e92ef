[package]
name = "libcarton"
version = "0.1.0"
edition = "2021"
publish = false

[dependencies]
anyhow = "1"
clap = { version = "4", features = ["derive"] }
env_logger = "0.10"
log = "0.4"
nix = { version = "0.27", features = ["fs", "mount", "process", "resource", "sched", "signal"] }
thiserror = "1"
