[package]
name = "siwe_sessions"
version = "0.1.0"
edition = "2021"
publish = false

[dependencies]
siwe = "=0.6.1"
sha2 = "=0.11.0"
rand = "=0.10.3"
serde = { version = "=1.0.229", features = ["derive"] }
serde_json = "=1.0.151"
uuid = { version = "=1.27.0", features = ["v4"] }

[dev-dependencies]
k256 = "=0.13.4"
sha3 = "=0.10.9"
http = "=1.5.0"
iri-string = "=0.7.14"
