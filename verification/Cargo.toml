[package]
name = "autoflashcard"
version = "0.1.0"
edition = "2021"
publish = false

[dependencies]
serde = "=1.0.229"
serde_json = "=1.0.151"
reqwest = { version = "=0.12.28", features = ["json"] }
tokio = { version = "=1.53.2", features = ["macros", "rt-multi-thread", "time"] }
dotenv = "=0.15.0"
langchain-rust = { version = "=4.6.0", features = ["ollama"] }

[dev-dependencies]
