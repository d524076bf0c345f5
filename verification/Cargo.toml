[package]
name = "agent"
version = "0.1.0"
edition = "2021"
publish = false

[dependencies]
serde_json = "=1.0.151"
tokio = { version = "=1.53.2", features = ["rt-multi-thread", "macros", "sync"] }
clap = { version = "=4.6.7", features = ["derive"] }
async-openai = { version = "=0.42.1", features = ["chat-completion"] }
thiserror = "=2.0.21"
