[package]
name = "fifo_queue"
version = "0.1.0"
edition = "2021"
publish = false

[dependencies]
regex = "*"
rayon = "*"
async-std = { version = "*", features = ["unstable"] }
surf = { version = "*", default-features = false, features = ["h1-client-rustls"] }
