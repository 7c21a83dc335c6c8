[package]
name = "rusty_dl"
version = "0.1.0"
edition = "2021"
publish = false

[dependencies]
regex = "1"
content_disposition = "0.4"
url = "2"
serde = { version = "1", features = ["derive"] }
serde_json = "1"
chrono = "0.4"
tokio = { version = "1", features = ["rt-multi-thread", "macros", "time", "sync"] }
reqwest = { version = "0.12", default-features = false }
poem = "*"
opener = "*"
notify-rust = "4"
