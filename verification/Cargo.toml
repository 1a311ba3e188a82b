[package]
name = "outcome_resolver"
version = "0.1.0"
edition = "2021"
publish = false

[dependencies]
rhai = "1"
serde = { version = "1", features = ["derive"] }
serde_json = "1"
thiserror = "2"
wstd = "0.5"
