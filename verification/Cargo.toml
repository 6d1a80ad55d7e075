[package]
name = "weibo_crawler"
version = "0.1.0"
edition = "2021"
publish = false

[dependencies]
serde_json = "=1.0.151"
reqwest = { version = "=0.13.5", default-features = false, features = ["form"] }
tokio = { version = "=1.53.2", features = ["rt-multi-thread", "macros", "time", "fs", "io-util"] }
clap = { version = "=4.6.7", features = ["derive"] }
ctrlc = "=3.5.2"
chrono = "=0.4.45"
