[package]
name = "miniblog"
version = "0.1.0"
edition = "2021"
publish = false

[dependencies]
url = "*"
slugify = "*"
names = { version = "*", default-features = false }
chrono = "*"
axum = "*"
axum_typed_multipart = "*"
tokio = { version = "*", features = ["macros", "rt-multi-thread", "net", "fs"] }
tower-http = { version = "*", features = ["fs"] }
rusqlite = { version = "*", features = ["bundled"] }
reqwest = { version = "*", default-features = false }
anyhow = "*"
tempfile = "*"
