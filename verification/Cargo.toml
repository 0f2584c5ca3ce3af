[package]
name = "zipf_coherence"
version = "0.1.0"
edition = "2021"

[dependencies]
csv = "*"
nalgebra = "*"
ordered-float = "*"
