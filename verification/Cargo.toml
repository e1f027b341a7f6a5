[package]
name = "trust_rust"
version = "0.1.0"
edition = "2021"
publish = false

[dependencies]
alloy-primitives = { version = "=1.7.3", features = ["k256"] }
alloy = { version = "=1.8.3", default-features = false, features = ["std", "reqwest", "sol-types", "providers", "provider-http", "rpc-types", "network"] }
uuid = { version = "=1.29.0", features = ["v4"] }
serde = { version = "=1.0.229", features = ["derive"] }
serde_json = "=1.0.154"
tokio = { version = "=1.54.1", features = ["macros", "rt-multi-thread", "net"] }
axum = { version = "=0.8.9", default-features = false, features = ["http1", "json", "tokio", "query"] }
url = "=2.5.8"

[dev-dependencies]
k256 = { version = "=0.13.4", default-features = false, features = ["ecdsa"] }
