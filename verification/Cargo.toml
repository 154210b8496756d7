[package]
name = "farcaster_node"
version = "0.1.0"
edition = "2021"
publish = false

[dependencies]
farcaster_core = { version = "=0.6.4", default-features = false, features = ["experimental"] }
bitcoin = "=0.28.2"
inet2_addr = { version = "=0.8.3", default-features = false, features = ["tor", "strict_encoding", "serde"] }
ecdsa_fun = { version = "=0.7.1", default-features = false, features = ["all"] }
uuid = "=1.27.0"
monero = { version = "=0.17.0", features = ["serde"] }
serde = { version = "1", features = ["derive"] }
toml = "0.8"
clap = { version = "4", features = ["derive"] }
