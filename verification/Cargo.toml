[package]
name = "tbg"
version = "0.1.0"
edition = "2021"
publish = false

[dependencies]
regex = "1"
sha2 = "0.10"
unicode-width = "0.1"
chrono = "0.4"
cpal = "0.15"
crossterm = "0.27"
rusqlite = { version = "0.31", features = ["bundled", "chrono"] }
serde = { version = "1", features = ["derive"] }
serde_yaml = "0.9"
termion = "*"
uuid = { version = "1", features = ["v4"] }
