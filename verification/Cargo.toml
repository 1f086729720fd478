[package]
name = "ffiber"
version = "0.1.0"
edition = "2021"

[dependencies]
color-eyre = { version = "0.6", default-features = false }
syn = { version = "1.0", features = ["full"] }
