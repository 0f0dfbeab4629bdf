[package]
name = "supervisor_webui"
version = "0.1.0"
edition = "2021"
publish = false

[dependencies]
actix-web = "=4.18.1"
dxr = "=0.9.0"
dxr_client = { version = "=0.9.0", default-features = false, features = ["reqwest"] }
futures = "=0.3.34"
lazy_static = "=1.5.1"
reqwest = { version = "=0.13.5", default-features = false, features = ["stream"] }
rust-embed = "=8.13.0"
serde = { version = "=1.0.229", features = ["derive"] }
serde_json = "=1.0.154"
