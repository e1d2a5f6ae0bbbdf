[package]
name = "ppaass-agent"
version = "0.1.0"
edition = "2021"
publish = false

[dependencies]
url = "2"
bytes = "1"
tokio = { version = "1", features = ["full"] }
tokio-util = { version = "0.7", features = ["codec"] }
futures = "0.3"
serde = { version = "1", features = ["derive"] }
serde_derive = "1"
toml = "0.8"
clap = { version = "4", features = ["derive"] }
anyhow = "1"
thiserror = "1"
tracing = "0.1"
tracing-subscriber = "0.3"
tracing-appender = "0.2"
httpcodec = "0.2"
bytecodec = "0.4"
chrono = "0.4"
pretty-hex = "0.4"
lazy_static = "1"
