[package]
name = "cookie_upsert"
version = "0.1.0"
edition = "2021"
publish = false

[dependencies]
rusqlite = { version = "*", features = ["bundled"] }
chrono = "*"
gethostname = "*"
directories = "*"
