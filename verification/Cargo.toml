[package]
name = "laji"
version = "0.1.0"
edition = "2021"
publish = false

[dependencies]
slab = "*"
mio = { version = "*", features = ["os-poll", "net"] }
chrono = "*"
