[package]
name = "omama_manager"
version = "0.1.0"
edition = "2021"
publish = false

[dependencies]
anyhow = "=1.0.104"
chrono = "=0.4.45"
nanoid = "=0.4.0"
ollama_models_info_fetcher = "=0.1.3"
ollama-rs = { version = "=0.2.6", features = ["stream"] }
ollama_td = "=0.4.0"
once_cell = "=1.21.4"
reqwest = "=0.12.28"
rig-core = "=0.11.1"
schemars = "=0.8.22"
serde = { version = "=1.0.229", features = ["derive"] }
serde_json = "=1.0.154"
tokio = { version = "=1.54.1", features = ["rt-multi-thread", "macros", "process", "fs", "io-util", "sync"] }
zip-extract = "=0.4.1"
