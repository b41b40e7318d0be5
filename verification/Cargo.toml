[package]
name = "x_client"
version = "0.1.0"
edition = "2021"
publish = false

[dependencies]
oauth2 = { version = "=5.0.0", default-features = false, features = ["reqwest"] }
reqwest = { version = "=0.12.28", default-features = false, features = ["json"] }
serde = { version = "=1.0.229", features = ["derive"] }
serde_json = "=1.0.151"
tokio = { version = "=1.53.2", features = ["rt", "macros", "sync"] }
