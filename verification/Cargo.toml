[package]
name = "pixelwalker"
version = "0.1.0"
edition = "2021"
publish = false

[dependencies]
anyhow = "=1.0.104"
base64 = "=0.22.1"
futures-util = "=0.3.34"
once_cell = "=1.21.4"
pocketbase-sdk = "=0.1.1"
proc-macro2 = "=1.0.107"
prost = "=0.14.4"
quote = "=1.0.47"
reqwest = { version = "=0.12.28", default-features = false, features = ["json", "rustls-tls"] }
serde = { version = "=1.0.229", features = ["derive"] }
serde_json = "=1.0.154"
syn = { version = "=2.0.119", features = ["full"] }
tokio = { version = "=1.54.1", features = ["macros", "rt-multi-thread", "signal", "net"] }
tokio-tungstenite = "=0.30.0"
url = "=2.5.8"
