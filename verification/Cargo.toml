[package]
name = "datadog_mcp"
version = "0.1.0"
edition = "2021"
publish = false

[dependencies]
schemars = "*"
serde = { version = "*", features = ["derive"] }
zed_extension_api = "*"
