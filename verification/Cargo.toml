[package]
name = "amzn_scraper"
version = "0.1.0"
edition = "2021"
publish = false

[dependencies]
actix-web = { version = "4", default-features = false, features = ["macros"] }
base64 = "0.21"
futures = "0.3"
prost = { version = "0.12", default-features = false, features = ["std"] }
reqwest = { version = "0.11", default-features = false }
scraper = { version = "0.17", default-features = false }
serde = { version = "1", features = ["derive"] }
thiserror = "1"
tokio = { version = "1", features = ["time", "rt", "macros"] }
