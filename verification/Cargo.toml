[package]
name = "ghostkey"
version = "0.1.0"
edition = "2021"
publish = false

[dependencies]
cocoa = "*"
core-graphics = "*"
objc = "*"
objc2-core-graphics = "*"
