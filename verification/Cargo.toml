[package]
name = "flaregun"
version = "0.1.0"
edition = "2021"
publish = false

[dependencies]
chrono = "*"
clap = { version = "*", features = ["derive"] }
env_logger = "*"
futures = "*"
libbpf-rs = "*"
libc = "*"
log = "*"
psutil = "*"
tokio = { version = "*", features = ["macros", "rt", "signal", "sync", "time"] }
