[package]
name = "crawlcore"
version = "0.1.0"
edition = "2021"
publish = false

[dependencies]
anyhow = "*"
axum = { version = "*", default-features = false, features = ["http1", "json", "tokio"] }
config = { version = "*", default-features = false }
env_logger = { version = "*", default-features = false }
log = "*"
reqwest = { version = "*", default-features = false, features = ["rustls-tls"] }
serde = { version = "*", features = ["derive"] }
spider = { version = "*", default-features = false, features = ["sync", "chrome", "chrome_intercept", "smart"] }
spider_transformations = "*"
tokio = { version = "*", features = ["macros", "rt-multi-thread", "signal", "net", "sync", "time"] }
