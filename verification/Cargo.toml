[package]
name = "rengo"
version = "0.1.0"
edition = "2021"
publish = false

[dependencies]
serenity = "0.12"
tokio = { version = "1", features = ["macros", "rt-multi-thread", "sync"] }
reqwest = { version = "0.12", features = ["json"] }
serde_json = "1"
rusqlite = { version = "0.32", features = ["bundled"] }
rand = "0.9"
image = { version = "0.25", default-features = false, features = ["png"] }
imageproc = { version = "0.25", default-features = false }
ab_glyph = "0.2"
