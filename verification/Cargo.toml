[package]
name = "menmos"
version = "0.1.0"
edition = "2021"
publish = false

[dependencies]
async-stream = "0.3"
bytes = "1"
dirs = "4"
futures = "0.3"
serde = { version = "1", features = ["derive"] }
serde_json = "1"
snafu = "0.7"
toml = "0.5"
