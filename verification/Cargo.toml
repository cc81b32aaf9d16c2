[package]
name = "socksproxy"
version = "0.1.0"
edition = "2021"
publish = false

[dependencies]
actix-web = "*"
clap = { version = "*", features = ["derive"] }
futures = "*"
log = "*"
pretty_env_logger = "*"
tokio = { version = "*", features = ["rt-multi-thread", "macros", "net", "io-util", "time"] }
