[package]
name = "boson_valence_identity"
version = "0.1.0"
edition = "2021"
publish = false

[dependencies]
boson-core = "=0.1.4"
serde_json = "=1.0.154"
uf-valence = "*"
