[package]
name = "ch9120"
version = "0.1.0"
edition = "2021"
publish = false

[dependencies]
defmt = "*"
derive_builder = { version = "*", default-features = false, features = ["alloc"] }
embassy-futures = "*"
embassy-time = "*"
embedded-hal = "1"
embedded-io-async = "*"
thiserror = { version = "2", default-features = false }
