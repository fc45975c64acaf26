[package]
name = "mioqu"
version = "0.1.0"
edition = "2021"

[dependencies]
mio = { version = "*", features = ["os-poll", "os-ext"] }
