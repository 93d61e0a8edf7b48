[package]
name = "server"
version = "0.1.0"
edition = "2021"
publish = false

[dependencies]
axum = "*"
tokio = { version = "*", features = ["macros", "rt-multi-thread", "net"] }
askama = "*"
log = "*"
log4rs = "*"
lazy_static = "*"
