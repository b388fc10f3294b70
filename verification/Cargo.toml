[package]
name = "sail"
version = "0.1.0"
edition = "2021"
publish = false

[dependencies]
anyhow = "*"
argh = "*"
confy = "*"
cradle = "*"
serde = "*"
serde_derive = "*"
