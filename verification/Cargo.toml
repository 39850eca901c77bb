[package]
name = "sys_info"
version = "0.1.0"
edition = "2021"
publish = false

[dependencies]
tokio = { version = "1", features = ["process", "rt-multi-thread", "macros", "net"] }
axum = "*"
