[package]
name = "class_model"
version = "0.1.0"
edition = "2021"
publish = false

[dependencies]
clang = { version = "*", features = ["clang_6_0", "runtime"] }
regex = "1"
