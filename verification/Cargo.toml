[package]
name = "rust_driver"
version = "0.1.0"
edition = "2021"
publish = false

[dependencies]
eui48 = { version = "=1.1.0", default-features = false }
serde = { version = "=1.0.229", features = ["derive"] }
serde_json = "=1.0.154"
thiserror = "=2.0.21"
log = "=0.4.35"

[dev-dependencies]
bitfield-struct = "=0.13.0"
rand = "0.8"
