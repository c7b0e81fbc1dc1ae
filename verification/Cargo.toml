[package]
name = "vibebar"
version = "0.1.0"
edition = "2021"
publish = false

[dependencies]
freedesktop-icons = "*"
image = { version = "*", default-features = false, features = ["png"] }
system-tray = "*"
tokio = { version = "*", features = ["rt", "macros", "sync", "time"] }
zbus = "*"
