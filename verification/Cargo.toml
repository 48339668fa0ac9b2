[package]
name = "rest_api_auth"
version = "0.1.0"
edition = "2021"
publish = false

[dependencies]
serde = { version = "=1.0.229", features = ["derive"] }
serde_json = "=1.0.154"
serde_repr = "=0.1.21"
email_address = "=0.2.9"
async-trait = "=0.1.92"
