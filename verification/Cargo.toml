[package]
name = "sortd"
version = "0.1.0"
edition = "2021"
publish = false

[dependencies]
chrono = "=0.4.45"
dirs = "=6.0.0"
notify = "=8.2.1"
reqwest = { version = "=0.12.28", default-features = false, features = ["json"] }
rfd = { version = "0.15", default-features = false, features = ["xdg-portal", "tokio"] }
rusqlite = { version = "=0.32.1", features = ["bundled"] }
serde = { version = "=1.0.229", features = ["derive"] }
serde_json = "=1.0.154"
tokio = { version = "=1.54.1", features = ["full"] }
uuid = { version = "=1.29.0", features = ["v4"] }
walkdir = "=2.5.0"
