[package]
name = "pkagent"
version = "0.1.0"
edition = "2021"
publish = false

[dependencies]
anyhow = "=1.0.104"
flume = "=0.12.0"
gtk4 = "=0.11.5"
gtk4-layer-shell = "=0.8.1"
serde = { version = "=1.0.229", features = ["derive"] }
tokio = { version = "=1.54.1", features = ["full"] }
tokio-util = "=0.7.20"
tracing = "=0.1.44"
tracing-subscriber = "=0.3.23"
uzers = "=0.12.2"
zbus = { version = "=5.19.0", default-features = false, features = ["tokio"] }
zvariant = "=5.15.1"
