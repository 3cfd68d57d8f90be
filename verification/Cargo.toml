[package]
name = "boppo"
version = "0.1.0"
edition = "2021"
publish = false

[dependencies]
anyhow = "1"
clap = { version = "4", features = ["derive"] }
clap_complete = "4"
indicatif = "0.18"
serde_json = "1"
tokio = { version = "1", features = ["macros", "rt-multi-thread"] }
