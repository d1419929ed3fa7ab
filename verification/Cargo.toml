[package]
name = "canton_sequencer_client"
version = "0.1.0"
edition = "2021"
publish = false

[dependencies]
ed25519-dalek = { version = "2", features = ["rand_core"] }
rand = "0.8"
prost = "0.13"
prost-types = "0.13"
tonic = "0.12"
