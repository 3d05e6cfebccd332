[package]
name = "joel_bot"
version = "0.1.0"
edition = "2021"
publish = false

[dependencies]
chrono = "0.4"
chrono-tz = "0.10"
serde = { version = "1", features = ["derive"] }
serde_yaml = "0.9"
reqwest = { version = "0.12", default-features = false, features = ["json"] }
rocket = { version = "0.5", features = ["json"] }
tokio = { version = "1", features = ["macros", "rt-multi-thread", "time"] }
rand = "0.9"
anyhow = "1"
async-trait = "0.1"
dotenv = "0.15"
clokwerk = "0.4"
