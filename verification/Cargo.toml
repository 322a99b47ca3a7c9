[package]
name = "snake_core"
version = "0.1.0"
edition = "2021"
publish = false

[dependencies]
rand = "*"
crossterm = { version = "*", features = ["event-stream"] }
futures = "*"
image = { version = "*", default-features = false, features = ["png"] }
rdev = "*"
tokio = { version = "*", features = ["macros", "rt-multi-thread", "sync", "time"] }
