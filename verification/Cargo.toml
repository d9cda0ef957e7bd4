[package]
name = "shurl"
version = "0.1.0"
edition = "2021"
publish = false

[dependencies]
clap = { version = "4", features = ["derive"] }
git2 = { version = "0.18", default-features = false }
owo-colors = "3"
rand = "0.8"
serde = { version = "1", features = ["derive"] }
shellexpand = "3"
toml = "0.8"
url = "2"
