[package]
name = "newsapi"
version = "0.1.0"
edition = "2021"
publish = false

[dependencies]
url = "=2.5.8"
serde_json = { version = "=1.0.154", features = ["arbitrary_precision"] }
serde = { version = "=1.0.229", features = ["derive"] }
thiserror = "=1.0.69"
ureq = { version = "=2.12.1", features = ["json"] }
reqwest = { version = "=0.12.28", default-features = false, features = ["json", "rustls-tls"] }
tokio = { version = "=1.54.1", features = ["macros", "rt-multi-thread"] }
dotenv = "=0.15.0"
termimad = "=0.35.5"
crossterm = "=0.29.0"
