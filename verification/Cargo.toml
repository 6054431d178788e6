[package]
name = "nflog"
version = "0.1.0"
edition = "2021"
publish = false

[dependencies]
libc = "*"
nflog-sys = "*"
nix = { version = "*", features = ["socket"] }
pnet_base = "*"
bytes = "*"
futures = "*"
tokio = { version = "1", features = ["net", "rt"] }
