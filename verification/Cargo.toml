[package]
name = "zygiskd"
version = "0.1.0"
edition = "2021"
publish = false

[dependencies]
anyhow = "*"
libc = "*"
log = "*"
memfd = "*"
nix = { version = "*", features = ["fs", "poll", "process", "socket"] }
passfd = "*"
