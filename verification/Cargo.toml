[package]
name = "block_dispatch"
version = "0.1.0"
edition = "2021"
publish = false

[dependencies]
anyhow = "1"
bs58 = "=0.5.1"
clap = { version = "4.5", features = ["derive"] }
futures = "0.3"
serde = { version = "1", features = ["derive"] }
serde_yaml = "0.9"
solana-hash = "=4.7.0"
solana-keypair = "=3.1.2"
solana-pubkey = "=4.4.0"
solana-signer = "=3.0.1"
solana-system-interface = { version = "=3.3.0", features = ["bincode"] }
solana-transaction = { version = "=3.1.0", features = ["bincode"] }
tokio = { version = "1", features = ["macros", "rt-multi-thread"] }
