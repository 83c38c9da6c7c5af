[package]
name = "allot"
version = "0.1.0"
edition = "2021"
publish = false

[dependencies]
anyhow = "1"
clap = { version = "4", features = ["derive"] }
mimalloc = "0.1"
proc-macro2 = "1"
quote = "1"
syn = { version = "2", features = ["full"] }
