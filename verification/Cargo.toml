[package]
name = "wholesum"
version = "0.1.0"
edition = "2021"
publish = false

[dependencies]
anyhow = "=1.0.104"
async-trait = "=0.1.92"
futures = "=0.3.34"
indicatif = "=0.18.6"
libp2p = { version = "=0.56.0", features = ["tokio", "tcp", "noise", "yamux", "quic", "dns", "gossipsub", "identify", "kad", "request-response", "cbor", "macros"] }
libp2p-quic = { version = "=0.13.1", features = ["tokio"] }
serde = { version = "=1.0.229", features = ["derive"] }
