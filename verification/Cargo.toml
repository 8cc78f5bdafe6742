[package]
name = "nyan_browser"
version = "0.1.0"
edition = "2021"
publish = false

[dependencies]
lru = "*"
regex = "*"
tokio = { version = "*", features = ["sync", "rt-multi-thread", "macros", "time"] }
serde = { version = "*", features = ["derive"] }
serde_json = "*"
toml = "*"
dirs = "*"
