[package]
name = "revtunnel"
version = "0.1.0"
edition = "2021"
publish = false

[dependencies]
sha2 = "*"
getrandom = "*"
tokio = { version = "*", features = ["full"] }
futures = "*"
getopts = "*"
