[package]
name = "actix_web_csp"
version = "0.1.0"
edition = "2021"
publish = false

[dependencies]
actix-web = { version = "4", default-features = false }
base64 = "0.22"
bytes = "1"
dashmap = "6"
futures = "0.3"
getrandom = "0.2"
indexmap = "2"
log = "0.4"
lru = "0.12"
parking_lot = "0.12"
ring = "0.17"
rustc-hash = "1.1"
serde = { version = "1", features = ["derive"] }
serde_json = "1"
smallvec = "1"
thiserror = "1"
url = "2"
uuid = { version = "1", features = ["v4"] }
