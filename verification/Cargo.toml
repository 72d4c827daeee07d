[package]
name = "deno_sqlite_plugin"
version = "0.1.0"
edition = "2021"
publish = false

[dependencies]
base64 = "0.12"
deno_core = "0.45"
rusqlite = { version = "0.23", features = ["bundled"] }
serde = { version = "1", features = ["derive"] }
serde_json = "1"
