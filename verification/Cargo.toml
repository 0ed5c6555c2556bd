[package]
name = "loreweaver"
version = "0.1.0"
edition = "2021"
publish = false

[dependencies]
tiktoken-rs = "=0.12.1"
chrono = "=0.4.45"
async-openai = { version = "=0.42.1", features = ["chat-completion"] }
tokio = { version = "=1.53.2", features = ["sync"] }
serde = { version = "=1.0.229", features = ["derive"] }
clap = "=4.6.7"
lazy_static = "=1.5.1"
