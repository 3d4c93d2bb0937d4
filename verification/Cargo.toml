[package]
name = "request_processor"
version = "0.1.0"
edition = "2021"
publish = false

[dependencies]
base64 = "=0.13.1"
bs58 = "=0.4.0"
chrono = "=0.4.19"
console = "=0.16.6"
jsonrpc-core = "=18.0.0"
log = "0.4"
serde_json = { version = "=1.0.154", features = ["float_roundtrip"] }
solana-account-decoder = "=1.10.0"
solana-client = "=1.10.0"
solana-runtime = "=1.10.0"
solana-sdk = "=1.10.0"
spl-token = "=3.2.0"
url = "=2.2.2"
