[package]
name = "ledger_engine"
version = "0.1.0"
edition = "2021"
publish = false

[dependencies]
anyhow = "1"
clap = "4"
csv = "1"
readonly = "0.2"
serde = { version = "1", features = ["derive"] }
thiserror = "1"
