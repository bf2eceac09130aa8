[package]
name = "dom_roots"
version = "0.1.0"
edition = "2021"
publish = false

[dependencies]
mitochondria = "*"
