[package]
name = "sharpen"
version = "0.1.0"
edition = "2021"
publish = false

[dependencies]
netcorehost = { version = "=0.22.0", default-features = false, features = ["net8_0"] }
