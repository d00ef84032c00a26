[package]
name = "bump_future"
version = "0.1.0"
edition = "2021"
publish = false

[dependencies]
bumpalo = "3"
crossbeam-queue = "0.3"
sptr = "0.3"
tokio = { version = "1", default-features = false, features = ["rt", "sync"] }
once_cell = "1"
