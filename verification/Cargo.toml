[package]
name = "data_aggregator"
version = "0.1.0"
edition = "2021"
publish = false

[dependencies]
actix-web = { version = "4", default-features = false, features = ["macros"] }
bb8 = "0.9"
bb8-postgres = "0.9"
serde = { version = "1", features = ["derive"] }
solana-sdk = { version = "2.3", default-features = false }
tokio = { version = "1", features = ["rt-multi-thread", "macros"] }
tokio-postgres = "0.7"
