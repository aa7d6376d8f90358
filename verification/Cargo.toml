[package]
name = "tui_diagnostics"
version = "0.1.0"
edition = "2021"
publish = false

[dependencies]
anyhow = "1"
better-panic = "0.3"
chrono = "0.4"
clap = { version = "4", features = ["cargo"] }
directories = "5"
lazy_static = "1"
libc = "0.2"
tracing = "0.1"
tracing-appender = "0.2"
tracing-subscriber = { version = "0.3", features = ["env-filter"] }
tui-logger = { version = "*", features = ["tracing-support"] }

[dev-dependencies]
serde_json = "1"
