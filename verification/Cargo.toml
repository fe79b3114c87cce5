[package]
name = "formula"
version = "0.1.0"
edition = "2021"

[dependencies]
minifb = { version = "0.29", default-features = false, features = ["x11"] }
