[package]
name = "musig2_party"
version = "0.1.0"
edition = "2021"
publish = false

[dependencies]
libsecp256k1 = "0.7"
sha2 = "0.10"
hex = "0.4"
rand_core = { version = "0.6", features = ["getrandom"] }
tokio = { version = "1", features = ["rt", "rt-multi-thread", "time", "sync", "macros"] }
futures = "0.3"
serde = { version = "1", features = ["derive"] }
