[package]
name = "loa_parser"
version = "0.1.0"
edition = "2021"
publish = false

[dependencies]
hashbrown = { version = "*", features = ["serde"] }
rusqlite = { version = "*", features = ["bundled"] }
serde = { version = "1", features = ["derive"] }
serde_json = "1"
