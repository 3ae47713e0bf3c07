[package]
name = "surf"
version = "0.1.0"
edition = "2021"
publish = false

[dependencies]
solana-pubkey = { version = "=2.4.0", features = ["curve25519"] }
solana-signature = "=2.3.0"
solana-keypair = "=2.2.3"
solana-signer = "=2.2.1"
solana-message = "=2.4.0"
solana-transaction = { version = "=2.2.3", features = ["bincode"] }
solana-instruction = "=2.3.3"
solana-hash = "=2.3.0"
solana-account = "=2.2.1"
solana-sdk-ids = "=2.2.1"
solana-system-interface = { version = "=1.0.0", features = ["bincode"] }
base64 = "=0.22.1"
bincode = "=1.3.3"
serde = { version = "=1.0.229", features = ["derive"] }
serde_json = "=1.0.154"
thiserror = "=2.0.21"
tokio = { version = "=1.54.1", features = ["rt-multi-thread", "macros", "sync", "time"] }
futures = "=0.3.34"
bytes = "=1.12.1"
async-nats = "=0.38.0"
clap = { version = "=4.6.7", features = ["derive"] }
rayon = "=1.12.0"
pinocchio = "=0.12.0"
pinocchio-system = "=0.7.0"
