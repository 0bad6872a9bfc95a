[package]
name = "hydrus_gubbins"
version = "0.1.0"
edition = "2021"
publish = false

[dependencies]
digest = "*"
md-5 = "*"
sha1 = "*"
ring = "*"
memmap2 = "*"
tokio = { version = "*", features = ["rt-multi-thread", "sync", "time"] }
pyo3 = "*"

[dev-dependencies]
hex = "*"
