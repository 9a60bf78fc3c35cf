[package]
name = "sapphire_launcher"
version = "0.1.0"
edition = "2021"
publish = false

[dependencies]
image = { version = "0.24", default-features = false, features = ["png"] }
iced = { version = "0.13", default-features = false, features = ["tiny-skia", "tokio"] }
tokio = { version = "1", features = ["rt-multi-thread", "macros", "process", "io-util", "fs", "sync", "time"] }
futures = "0.3"
rfd = { version = "0.15", default-features = false, features = ["xdg-portal", "tokio"] }
