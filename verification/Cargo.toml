[package]
name = "song_bin"
version = "0.1.0"
edition = "2021"
publish = false

[dependencies]
base64 = "0.22"
serde_json = "1"
serde_yaml = "0.9"
url = "2"
urlencoding = "2"
uuid = { version = "1", features = ["v4", "serde"] }
chrono = { version = "0.4", default-features = false, features = ["clock", "serde", "std"] }
serde = { version = "1", features = ["derive"] }
anyhow = "1"
log = "0.4"
env_logger = "0.11"
dirs = "6"
ureq = "3"
zip = { version = "2", default-features = false, features = ["deflate"] }
single-instance = "0.3"
