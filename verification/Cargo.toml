[package]
name = "tun_bench"
version = "0.1.0"
edition = "2021"
publish = false

[dependencies]
pnet_packet = "*"
tun-rs = { version = "*", features = ["async"] }
tun = { version = "*", features = ["async"] }
tokio = { version = "1", features = ["full"] }
bytes = "*"
log = "*"
env_logger = "*"
