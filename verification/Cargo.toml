[package]
name = "blob_kzg"
version = "0.1.0"
edition = "2021"
publish = false

[dependencies]
c-kzg = "1"
blst = "0.3"
sha2 = "0.10"
serde = { version = "1", features = ["derive"] }
serde_json = "1"
serde_yaml = "0.9"

[dev-dependencies]
bls12_381 = "0.8"
