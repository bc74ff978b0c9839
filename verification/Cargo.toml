[package]
name = "sb_ctrl_bridge"
version = "0.1.0"
edition = "2021"
publish = false

[dependencies]
nix = { version = "*", features = ["socket", "net", "ioctl"] }
