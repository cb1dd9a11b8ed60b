[package]
name = "component-oauth-card"
version = "0.1.0"
edition = "2021"
publish = false

[dependencies]
serde = { version = "=1.0.229", features = ["derive"] }
serde_json = "=1.0.154"
thiserror = "=2.0.21"
uuid = { version = "=1.29.0", features = ["v4"] }
greentic-interfaces-guest = { version = "=0.4.113", features = ["component-node-v0-4"] }
