[package]
name = "nft_ingester"
version = "0.1.0"
edition = "2021"
publish = false

[dependencies]
sea-orm = { version = "0.9", default-features = false, features = ["macros", "with-json"] }
serde = { version = "1", features = ["derive"] }
thiserror = "1"
tokio = { version = "1", features = ["rt-multi-thread", "macros", "sync", "time"] }
