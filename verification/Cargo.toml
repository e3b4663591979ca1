[package]
name = "gitlab_status"
version = "0.1.0"
edition = "2021"
publish = false

[dependencies]
percent-encoding = "2"
serde = { version = "1", features = ["derive"] }
chrono = { version = "0.4", features = ["serde"] }
reqwest = { version = "0.12", features = ["blocking", "json"] }
toml = "*"
cocoa = "*"
fruitbasket = "*"
objc = "0.2"
objc-foundation = "0.1"
