[package]
name = "program_subscribe"
version = "0.1.0"
edition = "2021"
publish = false

[dependencies]
solana-pubkey = { version = "=2.4.0", default-features = false, features = ["std"] }
solana-account = { version = "=2.2.1", default-features = false }
solana-account-decoder-client-types = { version = "=2.3.13", default-features = false, features = ["zstd"] }
solana-program-pack = { version = "=2.2.1" }
spl-token-2022 = { version = "=6.0.0" }
tokio = { version = "=1.47.5", features = ["sync", "rt", "macros", "time"] }
tokio-util = { version = "=0.7.19" }
futures = { version = "=0.3.34" }
log = { version = "=0.4.34" }
async-trait = { version = "=0.1.92" }
serde = { version = "=1.0.229", features = ["derive"] }
