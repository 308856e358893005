[package]
name = "remop"
version = "0.1.0"
edition = "2021"
publish = false

[dependencies]
bytes = "=1.12.1"
futures = "=0.3.34"
remoc = { version = "=0.10.3", default-features = false, features = ["rch"] }
serde = { version = "=1.0.229", features = ["derive"] }
tokio = { version = "=1.54.1", features = ["macros", "rt", "sync"] }
tracing = "=0.1.44"
