[package]
name = "quilkin"
version = "0.1.0"
edition = "2021"
publish = false

[dependencies]
async-trait = "0.1"
rand = "0.8"
slog = "2"
tokio = { version = "1", features = ["macros", "net", "rt", "rt-multi-thread", "sync", "time"] }
tracing = "0.1"
tracing-subscriber = { version = "0.3", features = ["env-filter"] }
