[package]
name = "tree_hole"
version = "0.1.0"
edition = "2021"
publish = false

[dependencies]
chrono = "0.4"
futures = "0.3"
poise = "0.6"
serde_json = "1"
serenity = "0.12"
snafu = "0.8"
sysinfo = "*"
tokio = { version = "1", features = ["macros", "rt", "rt-multi-thread", "sync", "time"] }
tracing = "0.1"
