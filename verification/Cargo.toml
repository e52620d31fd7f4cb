[package]
name = "rust_exchange"
version = "0.1.0"
edition = "2021"
publish = false

[dependencies]
uuid = { version = "=1.29.0", features = ["v4"] }
chrono = "=0.4.45"
# Random bytes for identifiers, drawn fallibly (uuid's own draw panics on failure).
getrandom = "=0.4.3"
salvo = { version = "=0.68.5", features = ["oapi"] }
tokio = { version = "=1.54.1", features = ["macros", "rt-multi-thread", "sync"] }
serde = { version = "=1.0.229", features = ["derive"] }
serde_json = "=1.0.154"
lazy_static = "=1.5.1"
log = "=0.4.35"
toml = "=0.8.23"
anyhow = "=1.0.104"
