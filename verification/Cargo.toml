[package]
name = "sidekiq"
version = "0.1.0"
edition = "2021"
publish = false

[dependencies]
chrono = "0.4"
gethostname = "0.4"
num_cpus = "1"
serde = { version = "1", features = ["derive"] }
serde_json = "1"
tokio = { version = "1", features = ["macros", "rt-multi-thread", "sync", "time"] }
tokio-util = "0.7"
tracing = "0.1"
