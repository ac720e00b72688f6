[package]
name = "md5_hasher"
version = "0.1.0"
edition = "2021"
publish = false

[dependencies]
anyhow = "1"
md-5 = "0.10"
rayon = "1"
