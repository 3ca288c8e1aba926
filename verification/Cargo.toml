[package]
name = "wireguard_vanity"
version = "0.1.0"
edition = "2021"
publish = false

[dependencies]
base64 = "*"
clap = "*"
num_cpus = "*"
rayon = "*"
x25519-dalek = { version = "*", features = ["getrandom", "static_secrets"] }
