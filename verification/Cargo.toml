[package]
name = "pronyx"
version = "0.1.0"
edition = "2021"
publish = false

[dependencies]
clap = "=4.6.7"
libc = "=0.2.191"
nix = "=0.31.3"
syscalls = { version = "=0.8.1", default-features = false, features = ["std", "aarch64", "arm", "x86", "x86_64"] }
