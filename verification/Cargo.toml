[package]
name = "delegation"
version = "0.1.0"
edition = "2021"
publish = false

[dependencies]
ark-bn254 = "=0.4.0"
ark-ec = "=0.4.2"
ark-ff = "=0.4.2"
ark-serialize = "=0.4.2"
ark-std = "=0.4.0"
csv = "=1.4.0"
ed25519-dalek = "=3.0.0"
josekit = "=0.10.3"
multibase = "=0.9.3"
serde = "=1.0.229"
sha2 = "=0.10.9"
vb_accumulator = "=0.29.0"
x25519-dalek = { version = "=3.0.0", features = ["static_secrets"] }
