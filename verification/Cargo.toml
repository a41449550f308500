[package]
name = "agent_room"
version = "0.1.0"
edition = "2021"
publish = false

[dependencies]
rand = "*"
tokio = { version = "*", features = ["macros", "rt-multi-thread", "sync", "time"] }
ollama-rs = "*"
chrono = "*"
