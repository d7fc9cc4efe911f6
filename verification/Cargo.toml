[package]
name = "sst_index"
version = "0.1.0"
edition = "2021"
publish = false

[dependencies]
async-trait = "0.1"
smallvec = "1"
tokio = { version = "1", features = ["rt", "sync"] }
