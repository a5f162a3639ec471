[package]
name = "tendermint"
version = "0.1.0"
edition = "2021"
publish = false

[dependencies]
secp256k1 = { version = "=0.28.2", features = ["rand-std"] }
rand = "=0.8.8"
sha3 = "=0.10.9"
hex = "=0.4.3"
tokio = { version = "=1.53.2", features = ["sync", "rt-multi-thread", "time", "macros"] }
tokio-stream = { version = "=0.1.19", features = ["sync"] }
serde = { version = "=1.0.229", features = ["derive"] }
serde_json = "=1.0.151"
clap = { version = "=4.6.7", features = ["derive"] }
reqwest = { version = "=0.11.27", default-features = false, features = ["json"] }
warp = "=0.3.7"
