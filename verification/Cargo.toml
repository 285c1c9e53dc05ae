[package]
name = "flap_lib"
version = "0.1.0"
edition = "2021"
publish = false

[dependencies]
base64ct = { version = "1", features = ["alloc"] }
blake3 = { version = "1", features = ["pure"] }
clap = { version = "4", features = ["derive"] }
dirs = "6"
ed25519-dalek = "2"
hkdf = "0.12"
rand = "0.9"
serde = { version = "1", features = ["derive"] }
sha2 = "0.10"
snow = { version = "0.10", features = ["hfs", "pqclean_kyber1024"] }
thiserror = "2"
tokio = { version = "1", features = ["fs", "io-util", "macros", "rt-multi-thread", "signal", "sync"] }
x25519-dalek = { version = "2", features = ["static_secrets"] }
