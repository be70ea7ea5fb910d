[package]
name = "lastfm_edit"
version = "0.1.0"
edition = "2021"
publish = false

[dependencies]
scraper = "*"
regex = "1"
urlencoding = "2"
chrono = { version = "0.4", default-features = false, features = ["std", "clock"] }
dirs = "*"
serde = { version = "1", features = ["derive"] }
serde_json = "1"
log = "0.4"
thiserror = "*"
async-trait = "0.1"
tokio = { version = "1", features = ["rt-multi-thread", "macros", "time", "sync"] }
http-types = { version = "2", default-features = false }
http-client-2 = { version = "6", default-features = false }
clap = { version = "4", features = ["derive"] }
env_logger = "*"
