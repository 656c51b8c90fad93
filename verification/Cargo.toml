[package]
name = "rowstream"
version = "0.1.0"
edition = "2021"
publish = false

[dependencies]
rusqlite = { version = "*", features = ["bundled"] }
itertools = "*"
serde = { version = "*", features = ["derive"] }
serde_json = "*"
r2d2 = "*"
r2d2_sqlite = "*"
rocket = { version = "*", features = ["json"] }
rust-embed = "*"
