[package]
name = "ibe_chl"
version = "0.1.0"
edition = "2021"
publish = false

[dependencies]
miracl_core = "*"
rand_core = { version = "0.6", features = ["getrandom"] }
