[package]
name = "patchy"
version = "0.1.0"
edition = "2021"
publish = false

[dependencies]
anyhow = "*"
colored = "*"
dialoguer = "*"
reqwest = { version = "*", default-features = false, features = ["blocking", "json"] }
serde = { version = "*", features = ["derive"] }
toml = "*"
