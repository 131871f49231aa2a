[package]
name = "deno_dir"
version = "0.1.0"
edition = "2021"
publish = false

[dependencies]
hyper = "0.12"
http = "0.1"
ring = "0.17"
