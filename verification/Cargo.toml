[package]
name = "surfpool"
version = "0.1.0"
edition = "2021"
publish = false

[dependencies]
crossbeam-channel = "=0.5.17"
dialoguer = { version = "=0.11.0", default-features = false }
flate2 = "=1.1.10"
futures = "=0.3.34"
hex = "=0.4.3"
indicatif = { version = "=0.17.11", default-features = false }
jsonrpc-core = { version = "=18.0.0", default-features = false, features = ["futures"] }
log = "=0.4.35"
napi = { version = "=2.16.17", default-features = false, features = ["napi4"] }
napi-derive = "=2.16.13"
reqwest = { version = "=0.12.28", default-features = false, features = ["json", "stream", "rustls-tls"] }
self-replace = "=1.5.1"
semver = "=1.0.28"
serde = { version = "=1.0.229", features = ["derive"] }
sha2 = "=0.10.9"
solana-epoch-info = "=3.1.0"
solana-keypair = { version = "=3.1.2", default-features = false }
solana-pubkey = "=3.0.0"
solana-signature = "=3.6.0"
solana-signer = "=3.0.1"
solana-transaction = "=3.1.0"
solana-transaction-status = "3"
tar = { version = "=0.4.46", default-features = false }
uuid = { version = "=1.29.0", features = ["v4"] }
