[package]
name = "zk_kernels"
version = "0.1.0"
edition = "2021"
publish = false

[dependencies]
ark-ff = "0.5"
ark-ec = "0.5"
ark-bn254 = "0.5"
ark-std = "0.5"
