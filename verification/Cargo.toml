[package]
name = "sinnergasm"
version = "0.1.0"
edition = "2021"
publish = false

[dependencies]
tokio = { version = "1", features = ["sync", "rt-multi-thread", "macros", "time"] }
sha2 = "0.10"
tonic = { version = "0.10", features = ["transport", "tls"] }
prost = "0.12"
tonic-health = "0.10"
tokio-stream = "0.1"
futures = "0.3"
futures-core = "0.3"
async-stream = "0.3"
anyhow = "1"
tracing = "0.1"
tracing-subscriber = "0.3"
rdev = "0.5"
druid = "0.8"
cli-clipboard = "0.4"
