[package]
name = "etag_middleware"
version = "0.1.0"
edition = "2021"
publish = false

[dependencies]
base64 = "*"
xxhash-rust = { version = "*", features = ["xxh3"] }
actix-web = { version = "*", default-features = false }
actix-service = "*"
futures = "*"
