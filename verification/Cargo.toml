[package]
name = "nat_probe"
version = "0.1.0"
edition = "2021"
publish = false

[dependencies]
stun = "*"
turn = "*"
webrtc-util = "*"
tokio = { version = "*", features = ["rt-multi-thread", "net", "io-std", "io-util", "macros"] }
clap = { version = "*", features = ["derive"] }
env_logger = "*"
log = "*"
thiserror = "*"
