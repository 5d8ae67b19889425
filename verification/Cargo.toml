[package]
name = "record_store"
version = "0.1.0"
edition = "2021"
publish = false

[dependencies]
bincode = { version = "2", features = ["serde"] }
rocksdb = { version = "*", default-features = false, features = ["bindgen-runtime"] }
serde = "1"
thiserror = "1"

[dev-dependencies]
tempfile = "3"
