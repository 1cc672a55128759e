[package]
name = "sheet_query"
version = "0.1.0"
edition = "2021"
publish = false

[dependencies]
calamine = "=0.22.1"
clap = { version = "=4.6.7", features = ["derive"] }
csv = "=1.4.0"
log = "=0.4.34"
pretty_env_logger = "=0.5.0"
prettytable-rs = { version = "=0.10.0", default-features = false }
rusqlite = { version = "=0.29.0", features = ["bundled"] }
rustyline = "=12.0.0"
serde = { version = "=1.0.229", features = ["derive"] }
thousands = "=0.2.0"
