[package]
name = "socks5"
version = "0.1.0"
edition = "2021"
publish = false

[dependencies]
env_logger = "0.11"
log = "0.4"
tokio = { version = "1", features = ["macros", "net", "rt-multi-thread"] }
