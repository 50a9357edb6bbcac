[package]
name = "arb_sampler"
version = "0.1.0"
edition = "2021"
publish = false

[dependencies]
rusqlite = { version = "*", features = ["bundled"] }
chrono = "*"
anyhow = "*"
serde = { version = "*", features = ["derive"] }
serde_json = "*"
toml = "*"
tokio = { version = "*", features = ["rt-multi-thread", "macros", "time"] }
ethers = { version = "2", default-features = false }
