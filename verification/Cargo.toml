[package]
name = "notifyd"
version = "0.1.0"
edition = "2021"
publish = false

[dependencies]
tokio = { version = "=1.53.2", features = ["rt", "macros", "time", "signal", "sync"] }
zbus = { version = "=5.19.0", default-features = false, features = ["tokio"] }
