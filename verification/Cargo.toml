[package]
name = "qvault"
version = "0.1.0"
edition = "2021"
publish = false

[dependencies]
chrono = "=0.4.45"
dotenv = "=0.15.0"
reqwest = { version = "=0.13.5", default-features = false, features = ["blocking", "query"] }
serde_json = "=1.0.151"
sled = "=0.34.7"
termion = "=4.0.6"
