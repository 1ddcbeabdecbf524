[package]
name = "hedgecore"
version = "0.1.0"
edition = "2021"
publish = false

[dependencies]
anyhow = "*"
dotenvy = "*"
reqwest = { version = "*", features = ["json"] }
rust_decimal = "*"
serde = { version = "*", features = ["derive"] }
tokio = { version = "*", features = ["full"] }
