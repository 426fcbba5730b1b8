[package]
name = "fee_collection_contract"
version = "0.1.0"
edition = "2021"
publish = false

[dependencies]
fuel-core-types = "=0.48.3"

[dev-dependencies]
fuel-core-types = { version = "=0.48.3", features = ["test-helpers"] }
