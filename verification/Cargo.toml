[package]
name = "kodegen_mcp_client"
version = "0.1.0"
edition = "2021"
publish = false

[dependencies]
rmcp = { version = "=3.5.0", features = ["client", "transport-child-process", "transport-streamable-http-client-reqwest"] }
reqwest = "=0.13.5"
serde = { version = "=1.0.229", features = ["derive"] }
serde_json = "=1.0.151"
thiserror = "=2.0.21"
tokio = { version = "=1.53.2", features = ["full"] }
which = "=8.0.6"
