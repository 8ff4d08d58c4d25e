[package]
name = "qem_simplify"
version = "0.1.0"
edition = "2021"
publish = false

[dependencies]
nalgebra = "=0.35.0"

[dev-dependencies]
ordered-float = "=5.5.0"
