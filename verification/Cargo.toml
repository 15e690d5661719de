[package]
name = "imoocs"
version = "0.1.0"
edition = "2021"
publish = false

[dependencies]
serde = { version = "=1.0.229", features = ["derive"] }
serde_json = "=1.0.154"
regex = "=1.13.1"
tokio = { version = "=1.54.1", features = ["process", "io-util", "rt-multi-thread", "macros"] }
async-trait = "=0.1.92"
clap = { version = "=4.6.7", features = ["derive", "env"] }
clap_complete = "=4.6.11"
thiserror = "=2.0.21"
tracing = "=0.1.44"
tracing-subscriber = { version = "=0.3.23", features = ["env-filter", "json"] }
zeroize = "=1.9.1"
anyhow = "=1.0.104"
dialoguer = "=0.11.0"
