[package]
name = "chat_session"
version = "0.1.0"
edition = "2021"
publish = false

[dependencies]
async-openai = { version = "=0.42.2", features = ["chat-completion"] }
colored = "=3.1.1"
config = "=0.15.27"
ferris-says = "=0.3.2"
futures = "=0.3.34"
serde = { version = "=1.0.229", features = ["derive"] }
tokio = { version = "=1.54.1", features = ["macros", "rt-multi-thread"] }
