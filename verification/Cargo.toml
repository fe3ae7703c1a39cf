[package]
name = "image_host"
version = "0.1.0"
edition = "2021"
publish = false

[dependencies]
async_zip = { version = "*", features = ["tokio", "deflate"] }
futures-lite = "*"
mimalloc = "*"
poem = { version = "*", features = ["multipart"] }
poem-openapi = "*"
serde_json = "*"
tokio = { version = "1", features = ["full"] }
zip = { version = "*", default-features = false, features = ["deflate"] }
