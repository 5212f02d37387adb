[package]
name = "anaden"
version = "0.1.0"
edition = "2021"
publish = false

[dependencies]
serde = { version = "1", features = ["derive"] }
serde_json = "1"
toml = "0.8"
thiserror = "1"
async-trait = "0.1"
tokio = { version = "1", features = ["time", "rt", "macros"] }
