[package]
name = "manta_xcm_weight"
version = "0.1.0"
edition = "2021"
publish = false

[dependencies]
frame-support = "=49.0.0"
parity-scale-codec = "=3.7.5"
sp-std = "=14.0.0"
sp-weights = "=37.0.0"
staging-xcm = "=25.0.0"
