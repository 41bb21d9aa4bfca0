[package]
name = "explora_token"
version = "0.1.0"
edition = "2021"
publish = false

[dependencies]
ink = "=4.3.0"
openbrush = { version = "=3.2.0", features = ["psp34"] }
parity-scale-codec = "=3.7.5"
scale-info = "=2.11.6"
secp256k1 = { version = "=0.27.0", features = ["recovery", "global-context"] }
