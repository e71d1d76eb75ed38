[package]
name = "lcp"
version = "0.1.0"
edition = "2021"
publish = false

[dependencies]
ibc = { version = "=0.15.0", features = ["mocks"] }
ibc-proto = "=0.18.0"
prost = "=0.10.4"
prost-types = "=0.10.1"
serde = { version = "=1.0.229", features = ["derive"] }
bincode = "=1.3.3"
