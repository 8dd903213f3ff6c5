[package]
name = "tap_helper"
version = "0.1.0"
edition = "2021"
publish = false

[dependencies]
clap = { version = "4", features = ["derive"] }
libc = "0.2"
nix = { version = "0.29", features = ["fs", "user"] }
serde = { version = "1", features = ["derive"] }
serde_json = "1"
