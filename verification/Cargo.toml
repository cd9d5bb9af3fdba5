[package]
name = "pylon_tg_bot"
version = "0.1.0"
edition = "2021"
publish = false

[dependencies]
clap = { version = "=4.6.7", features = ["derive", "env"] }
confy = "=2.0.0"
dotenvy = "=0.15.7"
eyre = "=0.6.14"
notify = "=8.2.0"
reqwest = { version = "=0.12.28", features = ["json"] }
serde = { version = "=1.0.229", features = ["derive"] }
# Not used by name: teloxide-core asks for takecell 0.1, and 0.1.2 needs Rust 1.96.
takecell = "=0.1.1"
teloxide = { version = "=0.17.0", features = ["macros"] }
tokio = { version = "=1.54.1", features = ["macros", "rt-multi-thread", "sync"] }
tokio-util = "=0.7.20"
tracing = "=0.1.44"
tracing-appender = "=0.2.5"
tracing-subscriber = { version = "=0.3.23", features = ["env-filter"] }
