[package]
name = "compliance_backend"
version = "0.1.0"
edition = "2021"
publish = false

[dependencies]
chrono = { version = "0.4", default-features = false, features = ["clock", "std", "serde"] }
uuid = { version = "1", features = ["v4", "serde"] }
serde = { version = "1", features = ["derive"] }
serde_json = "1"
thiserror = "1"
tokio = { version = "1", features = ["macros", "rt", "sync"] }
sqlx = { version = "0.8", default-features = false }
reqwest = { version = "0.12", default-features = false }
config = { version = "0.15", default-features = false }
miden-objects = "0.12"
miden-lib = "0.12"
