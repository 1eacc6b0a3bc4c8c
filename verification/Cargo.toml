[package]
name = "volant_lib"
version = "0.1.0"
edition = "2021"
publish = false

[dependencies]
env_logger = "=0.11.11"
futures = "=0.3.34"
langchain-rust = { version = "=4.6.0", features = ["ollama"] }
lazy_static = "=1.5.1"
log = "=0.4.34"
tokio = { version = "=1.53.2", features = ["sync", "rt", "rt-multi-thread", "macros"] }
