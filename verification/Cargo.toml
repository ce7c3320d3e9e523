[package]
name = "classifier"
version = "0.1.0"
edition = "2021"
publish = false

[dependencies]
bincode = "=2.0.0-rc.3"
burn = { version = "=0.13.2", default-features = false, features = ["std", "dataset", "sqlite-bundled", "ndarray", "autodiff"] }
serde = { version = "1", features = ["derive"] }
