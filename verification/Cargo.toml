[package]
name = "epoch_keeper"
version = "0.1.0"
edition = "2021"
publish = false

[dependencies]
anyhow = "1"
dotenv = "0.15"
sha2 = "0.10"
solana-commitment-config = "2.2"
solana-instruction = "2.2"
solana-keypair = "2.2"
solana-pubkey = { version = "2.2", features = ["curve25519"] }
solana-rpc-client = { version = "2.2", default-features = false }
solana-rpc-client-api = "2.2"
solana-sdk-ids = "2.2"
solana-signer = "2.2"
solana-transaction = { version = "2.2", features = ["bincode"] }
tokio = { version = "1", features = ["rt-multi-thread", "macros", "time"] }
