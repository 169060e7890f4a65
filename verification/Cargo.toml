[package]
name = "greentic_session"
version = "0.1.0"
edition = "2021"
publish = false

[dependencies]
greentic-types = "=1.1.4"
hex = "=0.4.3"
parking_lot = "=0.12.5"
redis = "=1.7.1"
serde = { version = "=1.0.229", features = ["derive"] }
serde_json = "=1.0.151"
sha2 = "=0.11.0"
time = "=0.3.55"
uuid = { version = "=1.27.0", features = ["v4"] }

[dev-dependencies]
sha2 = "=0.11.0"
