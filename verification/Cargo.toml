[package]
name = "securechat"
version = "0.1.0"
edition = "2021"
publish = false

[dependencies]
snow = "=0.10.0"
zeroize = "1"
