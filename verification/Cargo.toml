[package]
name = "mdsite"
version = "0.1.0"
edition = "2021"
publish = false

[dependencies]
pulldown-cmark = "0.9"
syntect = { version = "5", default-features = false, features = ["default-fancy"] }
gh-emoji = "1"
base64 = "0.13"
mime_guess = "2"
toml = "0.8"
chrono = "0.4"
tokio = { version = "1", features = ["full"] }
async-trait = "0.1"
