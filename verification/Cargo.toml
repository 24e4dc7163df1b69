[package]
name = "cc_switch_web"
version = "0.1.0"
edition = "2021"
publish = false

[dependencies]
uuid = { version = "1", features = ["v4"] }
serde = { version = "1", features = ["derive"] }
serde_json = "1"
clap = { version = "4", features = ["derive", "env"] }
tokio = { version = "1", features = ["rt-multi-thread", "net", "signal", "sync", "macros"] }
axum = "0.7"
tower-http = { version = "0.6", features = ["fs", "set-status"] }
async-stream = "0.3"
futures = "0.3"
reqwest = { version = "0.12", default-features = false, features = ["rustls-tls"] }
which = "*"
