[package]
name = "aircap"
version = "0.1.0"
edition = "2021"
publish = false

[dependencies]
libc = "*"
nix = { version = "*", features = ["net", "socket"] }
socket2 = { version = "*", features = ["all"] }
tokio = { version = "*", features = ["net", "process", "rt"] }
