[package]
name = "haole"
version = "0.1.0"
edition = "2021"
publish = false

[dependencies]
chrono = "=0.4.45"
clap = { version = "=4.6.7", features = ["derive"] }
colored = "=3.1.1"
confy = "=2.0.0"
crossterm = "=0.29.0"
ratatui = "=0.30.2"
reqwest = { version = "=0.12.28", features = ["json"] }
self_update = "=0.42.0"
serde = { version = "=1.0.229", features = ["derive"] }
tokio = { version = "=1.54.1", features = ["macros", "rt-multi-thread", "time"] }
