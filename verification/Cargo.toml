[package]
name = "vault_interest"
version = "0.1.0"
edition = "2021"
publish = false

[dependencies]
solana-pubkey = "2"
spl-associated-token-account-client = "1"
solana-keypair = "2"
solana-signer = "2"
solana-transaction = "2"
solana-commitment-config = "2"
solana-instruction = "2"
solana-hash = "2"
solana-rpc-client = "=2.2.20"
solana-rpc-client-api = "2"
tokio = { version = "1", features = ["macros", "rt-multi-thread", "time"] }
anyhow = "1"
