[package]
name = "mcp_client_rust"
version = "0.1.0"
edition = "2021"
publish = false

[dependencies]
serde = { version = "1", features = ["derive"] }
serde_json = "1"
reqwest = { version = "0.12", default-features = false, features = ["blocking", "json"] }
chrono = "0.4"
uuid = { version = "1", features = ["v4"] }
thiserror = "1"
