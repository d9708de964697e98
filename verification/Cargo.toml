[package]
name = "chasm"
version = "0.1.0"
edition = "2021"
publish = false

[dependencies]
base64 = "0.21"
sanitize-filename = "*"
serde = { version = "*", features = ["derive"] }
serde_json = "*"
chrono = { version = "*", features = ["serde"] }
futures = "*"
actix-web = { version = "4", default-features = false, features = ["macros"] }
actix-multipart = { version = "*", default-features = false }
awc = { version = "*", default-features = false }
