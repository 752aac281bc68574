[package]
name = "bridge_relay"
version = "0.1.0"
edition = "2021"
publish = false

[dependencies]
sp-core = "*"
sp-crypto-hashing = "*"
parity-scale-codec = "*"
smallvec = "*"
anyhow = "*"
async-trait = "*"
structopt = "*"
strum = { version = "*", features = ["derive"] }
