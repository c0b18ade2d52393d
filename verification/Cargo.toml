[package]
name = "hash_cache"
version = "0.1.0"
edition = "2021"
publish = false

[dependencies]
sha1 = "*"
image = { version = "*", default-features = false, features = ["png"] }

[dev-dependencies]
tempfile = "*"
