[package]
name = "transcribe_core"
version = "0.1.0"
edition = "2021"
publish = false

[dependencies]
sanitize-filename = "*"
actix-web = { version = "*", default-features = false, features = ["macros"] }
actix-files = "*"
actix-multipart = "*"
aws-config = "*"
aws-sdk-s3 = "*"
futures = "*"
reqwest = { version = "*", default-features = false, features = ["json"] }
serde = { version = "*", features = ["derive"] }
serde_json = "*"
