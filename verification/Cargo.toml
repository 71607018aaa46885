[package]
name = "dlsite_rust_renamer"
version = "0.1.0"
edition = "2021"
publish = false

[dependencies]
anyhow = "1"
chrono = { version = "0.4", default-features = false, features = ["clock", "std"] }
eframe = { version = "0.31", default-features = false, features = ["glow", "x11", "default_fonts"] }
log = "0.4"
once_cell = "1"
regex = "1"
rusqlite = { version = "*", features = ["bundled"] }
scraper = { version = "*", default-features = false }
serde = { version = "1", features = ["derive"] }
serde_json = "1"
thiserror = "*"
tokio = { version = "1", features = ["rt-multi-thread", "fs"] }
ureq = { version = "3", default-features = false, features = ["rustls"] }
walkdir = "2"
