[package]
name = "onebox"
version = "0.1.0"
edition = "2021"
publish = false

[dependencies]
anyhow = "1"
log = "0.4"
png = "*"
serde = { version = "1", features = ["derive"] }
serde_json = "1"
sysproxy = "*"
tokio = { version = "1", features = ["net", "time", "process", "rt-multi-thread", "sync"] }
webbrowser = "1"
