[package]
name = "warp-mp-ipfs"
version = "0.1.0"
edition = "2021"
publish = false

[dependencies]
bs58 = "=0.4.0"
chrono = { version = "=0.4.45", features = ["serde"] }
ed25519-dalek = "=1.0.1"
futures = "=0.3.34"
libipld = { version = "*", default-features = false }
libp2p = { version = "=0.42.2", default-features = false }
rand = "=0.7.3"
serde = { version = "=1.0.229", features = ["derive"] }
serde_json = "=1.0.154"
tokio = { version = "=1.54.1", features = ["fs", "rt", "rt-multi-thread"] }
uuid = { version = "=1.29.0", features = ["v4", "serde"] }
