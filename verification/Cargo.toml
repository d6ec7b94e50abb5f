[package]
name = "zcash_tx_decryptor"
version = "0.1.0"
edition = "2021"
publish = false

[dependencies]
anyhow = "=1.0.104"
chrono = { version = "=0.4.45", features = ["serde"] }
clap = { version = "=4.6.7", features = ["derive"] }
hex = "=0.4.3"
serde = { version = "=1.0.229", features = ["derive"] }
serde_json = "=1.0.154"
tokio = { version = "=1.54.1", features = ["macros", "rt-multi-thread"] }
zcash_client_backend = { version = "=0.25.0", features = ["orchard"] }
zcash_keys = { version = "=0.17.0", features = ["orchard", "sapling"] }
zcash_primitives = "=0.31.0"
zcash_protocol = "=0.11.0"

[dev-dependencies]
nonempty = "=0.11.0"
orchard = "=0.16.0"
rand_core = "=0.10.1"
redjubjub = "=0.9.0"
sapling-crypto = "=0.9.0"
zcash_note_encryption = "=0.5.1"
zip32 = "=0.3.0"
