[package]
name = "aes_ctr_enc_dec"
version = "0.1.0"
edition = "2021"
publish = false

[dependencies]
anyhow = "1"
mbedtls = "*"
structopt = "0.3"
