[package]
name = "pmi3sat"
version = "0.1.0"
edition = "2021"
publish = false

[dependencies]
clap = { version = "4", features = ["derive"] }
petgraph = "0.6"
rand = "0.8"
