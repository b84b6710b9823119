[package]
name = "duners"
version = "0.1.0"
edition = "2021"
publish = false

[dependencies]
chrono = { version = "=0.4.45", default-features = false, features = ["std"] }
dotenv = "=0.15.0"
log = "=0.4.34"
polars = { version = "=0.55.2", default-features = false, features = ["json"] }
reqwest = { version = "=0.12.28", default-features = false, features = ["json", "rustls-tls"] }
serde = { version = "=1.0.229", features = ["derive"] }
serde_json = "=1.0.154"
serde_with = "=3.24.0"
tokio = { version = "=1.54.1", features = ["macros", "rt-multi-thread", "time"] }

[dev-dependencies]
http = "=1.5.0"
