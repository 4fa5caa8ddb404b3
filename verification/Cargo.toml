[package]
name = "sync_translation"
version = "0.1.0"
edition = "2021"
publish = false

[dependencies]
anyhow = "=1.0.104"
async-graphql = { version = "=3.0.38", features = ["chrono"] }
chrono = "=0.4.45"
config = "=0.11.0"
diesel = { version = "=1.4.8", features = ["sqlite", "chrono"] }
log = "=0.4.34"
serde = { version = "=1.0.229", features = ["derive"] }
serde_json = "=1.0.154"
thiserror = "=1.0.69"
