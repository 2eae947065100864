[package]
name = "evm-runtime"
version = "0.1.0"
edition = "2021"
publish = false

[dependencies]
serde = { version = "*", features = ["derive"] }
borsh = { version = "*", features = ["derive"] }
parity-scale-codec = { version = "*", features = ["derive"] }
