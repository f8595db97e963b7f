[package]
name = "clima_bot"
version = "0.1.0"
edition = "2021"
publish = false

[dependencies]
dotenv = "0.15"
reqwest = { version = "0.11", default-features = false }
serenity = "0.11"
tokio = { version = "1", features = ["macros", "rt-multi-thread"] }
