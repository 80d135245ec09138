[package]
name = "rron"
version = "0.1.0"
edition = "2021"
publish = false

[dependencies]
chrono = "0.4"
chrono-tz = "*"
clap = { version = "4", features = ["derive"] }
cron = "*"
env_logger = "*"
hifitime = "*"
home = "*"
log = "*"
serde = { version = "1", features = ["derive"] }
thiserror = "*"
tokio = { version = "1", features = ["rt-multi-thread", "macros", "time"] }
toml = "*"
