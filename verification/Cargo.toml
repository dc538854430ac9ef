[package]
name = "polkadot_client"
version = "0.1.0"
edition = "2021"
publish = false

[dependencies]
anyhow = "=1.0.104"
chrono = "=0.4.45"
parity-scale-codec = "=3.7.5"
serde = { version = "=1.0.229", features = ["derive"] }
serde_json = "=1.0.151"
subxt = "=0.38.1"
subxt-signer = "0.38"
