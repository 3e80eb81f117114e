[package]
name = "slash_args"
version = "0.1.0"
edition = "2021"
publish = false

[dependencies]
serenity = { version = "0.10", features = ["unstable_discord_api"] }

[dev-dependencies]
serde_json = "1"
