[package]
name = "alvr_connection"
version = "0.1.0"
edition = "2021"
publish = false

[dependencies]
bincode = "1.3"
futures = "0.3"
glam = { version = "*", features = ["serde"] }
glyph_brush_layout = "*"
parking_lot = "0.12"
semver = { version = "1", features = ["serde"] }
serde = { version = "1", features = ["derive"] }
serde_json = "1"
settings-schema = "*"
tokio = { version = "1", features = ["rt-multi-thread", "macros", "sync", "time"] }
