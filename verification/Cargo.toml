[package]
name = "pasteboard"
version = "0.1.0"
edition = "2021"

[dependencies]
objc = "0.2.7"
objc_id = "0.1.1"
