[package]
name = "maeve"
version = "0.1.0"
edition = "2021"
publish = false

[dependencies]
anyhow = "1"
axum = "*"
dirs-next = "2"
serde = { version = "1", features = ["derive"] }
serde_json = "1"
thiserror = "*"
time = { version = "0.3", features = ["parsing", "formatting", "serde", "macros"] }
tokio = { version = "1", features = ["rt-multi-thread", "macros", "fs", "net"] }
tower-http = { version = "*", features = ["cors"] }
