[package]
name = "blooming"
version = "0.1.0"
edition = "2021"
publish = false

[dependencies]
anyhow = "1"
async-trait = "0.1"
chrono = "=0.4.45"
clap = { version = "4", features = ["derive"] }
daemonize = "*"
futures = "0.3"
log = "0.4"
reqwest = { version = "*", default-features = false, features = ["json", "blocking"] }
rss-for-mikan = "=2.0.4"
sensible-env-logger = "*"
serde = { version = "1", features = ["derive"] }
serde-xml-rs = "*"
serfig = "*"
tokio = { version = "1", features = ["macros", "rt-multi-thread", "time"] }
yaserde = "*"
yaserde_derive = "*"
