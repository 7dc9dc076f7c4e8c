[package]
name = "kvlet"
version = "0.1.0"
edition = "2021"
publish = false

[dependencies]
anyhow = "*"
rusqlite = { version = "=0.40.2", features = ["bundled"] }
reqwest = { version = "=0.13.5", default-features = false, features = ["blocking"] }
chrono = "=0.4.45"
clap = { version = "=4.6.7", features = ["derive"] }
log = "=0.4.34"
log4rs = "=1.4.0"
tabled = "=0.22.0"
