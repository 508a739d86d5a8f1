[package]
name = "rusty_logger"
version = "0.1.0"
edition = "2021"
publish = false

[dependencies]
dynfmt = { version = "0.1", default-features = false, features = ["curly"] }
owo-colors = "4"
time = { version = "0.3", features = ["formatting", "parsing"] }
tracing = "0.1"
tracing-core = "0.1"
tracing-subscriber = { version = "0.3", features = ["fmt", "json", "time", "env-filter", "registry"] }
tracing-appender = "0.2"
serde = { version = "1", features = ["derive"] }
serde_json = "1"
thiserror = "1"
pyo3 = "0.22"
