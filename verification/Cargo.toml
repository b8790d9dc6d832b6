[package]
name = "gsheet_api"
version = "0.1.0"
edition = "2021"
publish = false

[dependencies]
chrono = "=0.4.45"
reqwest = { version = "=0.13.5", default-features = false, features = ["json", "form", "query"] }
serde = { version = "=1.0.229", features = ["derive"] }
serde_json = "=1.0.151"
jsonwebtoken = "=11.1.0"
async-trait = "=0.1.92"
thiserror = "=2.0.21"
