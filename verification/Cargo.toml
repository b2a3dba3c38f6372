[package]
name = "hashstar"
version = "0.1.0"
edition = "2021"
publish = false

[dependencies]
md5 = "0.7"
clipboard = "0.5"
iced = { version = "0.10", default-features = false }
