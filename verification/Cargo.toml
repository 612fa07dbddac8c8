[package]
name = "dablog"
version = "0.1.0"
edition = "2021"
publish = false

[dependencies]
chrono = "0.4"
docopt = "1.1"
rusqlite = "*"
serde = { version = "1", features = ["derive"] }
tempfile = "3"
