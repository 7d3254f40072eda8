[package]
name = "rgb_lightning_node"
version = "0.1.0"
edition = "2021"
publish = false

[dependencies]
anyhow = "=1.0.104"
base64 = "=0.22.1"
bincode = "=1.3.3"
bitcoin = { version = "=0.32.102", features = ["base64"] }
bitcoin-bech32 = "=0.13.0"
clap = { version = "=4.6.7", features = ["derive"] }
lightning = "=0.2.7"
# named by what the macros of lightning that write and read stored tables expand to
lightning-macros = "=0.2.1"
rand = "=0.8.8"
sea-orm = { version = "=1.1.20", default-features = false, features = ["macros"] }
serde = { version = "=1.0.229", features = ["derive"] }
serde_json = "=1.0.154"
tokio = { version = "=1.54.1", features = ["rt-multi-thread", "macros", "sync", "time"] }
tracing = "=0.1.44"
tracing-subscriber = { version = "=0.3.23", features = ["env-filter"] }
