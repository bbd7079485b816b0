[package]
name = "ygptaskmgr"
version = "0.1.0"
edition = "2021"
publish = false

[dependencies]
chrono = { version = "0.4", features = ["serde"] }
clap = { version = "4", features = ["derive"] }
directories = "5"
owo-colors = "4"
serde = { version = "1", features = ["derive"] }
serde_json = "1"
