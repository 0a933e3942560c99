[package]
name = "tabby_schema"
version = "0.1.0"
edition = "2021"
publish = false

[dependencies]
anyhow = "=1.0.104"
async-openai-alt = { version = "=0.26.2", default-features = false }
base64 = "=0.22.1"
chrono = "=0.4.45"
futures = "=0.3.34"
juniper = { version = "=0.16.2", default-features = false, features = ["chrono"] }
ldap3 = { version = "=0.11.5", default-features = false }
strum = { version = "=0.24.1", features = ["derive"] }
thiserror = "=1.0.69"
tracing = "=0.1.44"
validator = { version = "=0.18.1", features = ["derive"] }

[dev-dependencies]
serde_json = "=1.0.154"
