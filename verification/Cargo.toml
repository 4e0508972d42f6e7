[package]
name = "get_user"
version = "0.1.0"
edition = "2021"
publish = false

[dependencies]
uuid = "1"
