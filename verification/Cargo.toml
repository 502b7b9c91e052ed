[package]
name = "copilot"
version = "0.1.0"
edition = "2021"
publish = false

[dependencies]
anyhow = "=1.0.104"
askama = "=0.12.1"
async-openai = "=0.29.6"
async-trait = "=0.1.92"
bon = "=3.10.3"
chrono-tz = "=0.10.4"
dotenvy = "=0.15.7"
futures = "=0.3.34"
log = "0.4"
lettre = { version = "=0.11.23", default-features = false, features = ["builder", "smtp-transport", "tokio1", "tokio1-rustls-tls", "hostname"] }
markdown = "=1.0.0"
octocrab = "=0.41.2"
reqwest = { version = "=0.12.28", default-features = false, features = ["rustls-tls"] }
self_update = { version = "=0.42.0", default-features = false, features = ["rustls"] }
serde = { version = "=1.0.229", features = ["derive"] }
tera = { version = "=1.20.1", default-features = false }
time = { version = "=0.3.55", features = ["macros", "formatting"] }
tokio = { version = "=1.54.1", features = ["macros", "rt-multi-thread", "signal", "sync"] }
tokio-cron-scheduler = "=0.15.1"
tracing-subscriber = { version = "=0.3.23", features = ["env-filter", "time"] }
