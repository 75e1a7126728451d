[package]
name = "vapi_core"
version = "0.1.0"
edition = "2021"
publish = false

[dependencies]
serde = { version = "=1.0.229", features = ["derive"] }
serde_json = "=1.0.151"
rand = "=0.10.3"
reqwest = { version = "=0.13.5", features = ["json"] }
actix-web = "=4.15.0"
async-openai = { version = "=0.42.1", features = ["chat-completion"] }
chrono = "=0.4.45"
futures = "=0.3.34"
