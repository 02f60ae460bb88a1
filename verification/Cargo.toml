[package]
name = "darkfi_net"
version = "0.1.0"
edition = "2021"
publish = false

[dependencies]
url = "=2.5.8"
rand = "0.8"
rand_core = "0.6"
bs58 = "0.4"
pasta_curves = "0.4"
halo2_proofs = "0.2"
smol = "2"
async-std = "1"
futures = "0.3"
log = "0.4"
