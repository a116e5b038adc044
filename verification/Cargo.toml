[package]
name = "configr"
version = "0.1.0"
edition = "2021"
publish = false

[dependencies]
dirs = "3.0"
serde = { version = "1", features = ["derive"] }
snafu = "0.6"
toml = "0.5"
