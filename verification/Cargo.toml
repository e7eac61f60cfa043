[package]
name = "clavis"
version = "0.1.0"
edition = "2021"
publish = false

[dependencies]
axum = "*"
dotenv = "0.15"
ldap3 = "0.11"
lettre = "0.11"
md4 = "0.10"
serde = { version = "1", features = ["derive"] }
serde_json = "1"
tokio = { version = "1", features = ["full"] }
tower-http = { version = "*", features = ["trace", "fs"] }
tower-sessions = "*"
tracing = "0.1"
tracing-subscriber = { version = "0.3", features = ["env-filter"] }
