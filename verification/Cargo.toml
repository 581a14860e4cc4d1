[package]
name = "discord_relay"
version = "0.1.0"
edition = "2021"
publish = false

[dependencies]
discord-flows = "*"
flowsnet-platform-sdk = "*"
llmservice-flows = "*"
log = "0.4"
serde_json = "1"
store-flows = "*"
tokio = { version = "1", features = ["macros", "rt"] }
