[package]
name = "groth16_params"
version = "0.1.0"
edition = "2021"
publish = false

[dependencies]
bellman = "=0.14.0"
bls12_381 = "=0.8.0"
pairing = "=0.23.0"
rayon = "=1.12.0"
