[package]
name = "flutter_realtime_player"
version = "0.1.0"
edition = "2021"
publish = false

[dependencies]
url = "=2.5.8"
sdp = "=0.17.2"
anyhow = "=1.0.104"
log = "=0.4.35"
lazy_static = "=1.5.1"
parking_lot = "=0.12.5"
flume = "=0.11.1"
serde = { version = "=1.0.229", features = ["derive"] }
serde_json = "=1.0.154"
tokio = { version = "=1.54.1", features = ["rt-multi-thread", "macros", "sync", "time", "net"] }
tokio-tungstenite = "=0.30.0"
tungstenite = "=0.30.0"
futures-util = "=0.3.34"
async-trait = "=0.1.92"
reqwest = { version = "=0.12.28", default-features = false, features = ["json", "blocking"] }
tracing-subscriber = { version = "=0.3.23", features = ["env-filter"] }
tracing-appender = "=0.2.5"
