[package]
name = "ssh_sync"
version = "0.1.0"
edition = "2021"
publish = false

[dependencies]
async-trait = "=0.1.92"
clap = { version = "=4.6.7", features = ["derive"] }
eyre = "=0.6.14"
log = "0.4"
serde = { version = "=1.0.229", features = ["derive"] }
serde_json = "=1.0.154"
tokio = { version = "=1.54.1", features = ["io-std", "io-util", "macros", "process", "rt", "sync", "time"] }
uuid = { version = "=1.29.0", features = ["serde"] }
