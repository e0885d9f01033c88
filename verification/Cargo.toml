[package]
name = "homecat"
version = "0.1.0"
edition = "2021"
publish = false

[dependencies]
jiff = { version = "=0.2.39", features = ["serde"] }
uuid = { version = "=1.29.0", features = ["v4", "serde"] }
rusqlite = { version = "=0.41.1", features = ["bundled"] }
serde = { version = "=1.0.229", features = ["derive"] }
serde_json = "=1.0.154"
iced = { version = "0.14", default-features = false, features = ["tiny-skia", "thread-pool", "x11"] }
