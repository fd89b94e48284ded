[package]
name = "deptyr"
version = "0.1.0"
edition = "2021"
publish = false

[dependencies]
clap = "=4.6.7"
ctrlc = "=3.5.2"
libc = "=0.2.190"
nix = { version = "=0.31.3", features = ["fs", "poll", "process", "signal", "term"] }
sendfd = "=0.4.5"
