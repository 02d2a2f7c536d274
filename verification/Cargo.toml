[package]
name = "jals_fmt"
version = "0.1.0"
edition = "2021"
publish = false

[dependencies]
quick-xml = "0.37"
serde = { version = "1", features = ["derive"] }
serde_json = "1"

[dev-dependencies]
toml = "0.8"
