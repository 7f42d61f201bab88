[package]
name = "cc_switch_web"
version = "0.1.0"
edition = "2021"
publish = false

[dependencies]
axum = "0.7"
futures = "0.3"
rustls = { version = "0.23", default-features = false, features = ["ring", "std"] }
serde = { version = "1", features = ["derive"] }
serde_json = "1"
tokio = { version = "1", features = ["full"] }
tower-http = { version = "0.5", features = ["cors", "fs"] }
