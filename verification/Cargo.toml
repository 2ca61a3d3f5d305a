[package]
name = "rw_rs"
version = "0.1.0"
edition = "2021"
publish = false

[dependencies]
nom = "=7.1.3"
anyhow = "=1.0.104"
binrw = "*"
