[package]
name = "b2sum"
version = "0.1.0"
edition = "2021"
publish = false

[dependencies]
blake2b_simd = "*"
memmap = "*"
os_pipe = "*"
structopt = "*"
