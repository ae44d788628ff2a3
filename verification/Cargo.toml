[package]
name = "wingman"
version = "0.1.0"
edition = "2021"
publish = false

[dependencies]
async-openai = "0.10"
futures = "0.3"
tokio = { version = "1", features = ["macros", "rt-multi-thread"] }
uuid = { version = "1", features = ["v4"] }
