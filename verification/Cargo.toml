[package]
name = "antikoerper"
version = "0.1.0"
edition = "2021"
publish = false

[dependencies]
regex = "1"
serde = { version = "1", features = ["derive"] }
toml = "0.8"
clap = "2"
log = "0.4"
env_logger = "0.10"
xdg = "2"
tokio = { version = "1", features = ["rt-multi-thread", "time", "macros"] }
influxdb = "0.7"
