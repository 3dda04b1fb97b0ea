[package]
name = "cedar_rbac"
version = "0.1.0"
edition = "2021"
publish = false

[dependencies]
cedar-policy = "2"
clap = { version = "4", features = ["derive"] }
itertools = "*"
