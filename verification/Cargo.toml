[package]
name = "quic_gateway"
version = "0.1.0"
edition = "2021"
publish = false

[dependencies]
quinn = "=0.6.2"
tokio = { version = "=0.2.25", features = ["full"] }
warp = "=0.2.5"
serde = { version = "=1.0.229", features = ["derive"] }
serde_derive = "=1.0.229"
serde_json = "=1.0.154"
rmp-serde = "1"
structopt = "=0.3.26"
directories = "=2.0.2"
anyhow = "=1.0.104"
tracing = "=0.1.44"
tracing-subscriber = "=0.2.25"
lazy_static = "=1.5.1"
