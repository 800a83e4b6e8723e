[package]
name = "macos-errno"
version = "1.0.2"
edition = "2021"
publish = false

[dependencies]
posix-errno = "*"
