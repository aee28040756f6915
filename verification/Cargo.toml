[package]
name = "upload_gzip"
version = "0.1.0"
edition = "2021"
publish = false

[dependencies]
flate2 = "1"
actix-web = { version = "4", default-features = false, features = ["macros"] }
actix-multipart = { version = "0.6", default-features = false }
actix-files = "0.6"
futures-util = { version = "0.3", default-features = false, features = ["std"] }
serde_json = "1"
