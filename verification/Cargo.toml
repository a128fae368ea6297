[package]
name = "brunosearch"
version = "0.1.0"
edition = "2021"
publish = false

[dependencies]
anyhow = "=1.0.104"
async-openai = { version = "=0.42.1", features = ["embedding"] }
axum = "=0.8.9"
axum-macros = "=0.5.1"
clap = { version = "=4.6.7", features = ["derive"] }
dotenvy = "=0.15.7"
http = "=1.5.0"
redis = { version = "=1.7.1", features = ["tokio-comp", "json"] }
redis-macros = "=1.0.1"
serde = { version = "=1.0.229", features = ["derive"] }
serde_json = "=1.0.151"
subprocess = "=1.2.1"
tokio = { version = "=1.53.2", features = ["macros", "rt-multi-thread", "net", "time"] }
tower-http = { version = "=0.7.1", features = ["compression-full", "cors", "fs"] }
