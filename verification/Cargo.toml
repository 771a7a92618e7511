[package]
name = "llm_gateway"
version = "0.1.0"
edition = "2021"
publish = false

[dependencies]
actix-web = "*"
anyhow = "*"
chrono = "*"
dotenv = "*"
env_logger = "*"
llama_cpp = "*"
log = "*"
num_cpus = "*"
serde = { version = "*", features = ["derive"] }
serde_json = "*"
tokio = { version = "*", features = ["sync", "macros", "rt-multi-thread"] }
uuid = { version = "*", features = ["v4"] }
