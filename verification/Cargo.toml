[package]
name = "anemoi"
version = "0.1.0"
edition = "2021"
publish = false

[dependencies]
ark-ff = "=0.3.0"
ark-bn254 = "=0.3.0"
ark-bls12-377 = "=0.3.0"
ark-ed-on-bls12-377 = "=0.3.0"
ark-vesta = "=0.3.0"
