[package]
name = "shortener"
version = "0.1.0"
edition = "2021"
publish = false

[dependencies]
rusqlite = { version = "*", features = ["bundled"] }
uuid = { version = "*", features = ["v4"] }
rocket = { version = "0.5", features = ["json"] }
serde = { version = "*", features = ["derive"] }
serde_json = "*"
