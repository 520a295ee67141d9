[package]
name = "botframework"
version = "0.1.0"
edition = "2021"
publish = false

[dependencies]
anyhow = "=1.0.104"
async-openai = { version = "=0.43.0", features = ["chat-completion", "audio", "byot"] }
axum = "=0.8.9"
chrono = "=0.4.45"
clap = { version = "=4.6.7", features = ["derive"] }
dotenvy = "=0.15.7"
enum_dispatch = "=0.3.13"
infisical = "=0.0.4"
reqwest = "=0.12.28"
serde = { version = "=1.0.229", features = ["derive"] }
serde_json = "=1.0.154"
# Not used directly: holds teloxide-core's takecell dependency below 0.1.2, which needs rustc 1.96; the toolchain that builds this crate is rustc 1.95.
takecell = ">=0.1, <0.1.2"
teloxide = "=0.17.0"
tokio = { version = "=1.54.1", features = ["full"] }
tracing = "=0.1.44"
tracing-subscriber = { version = "=0.3.23", features = ["env-filter"] }
