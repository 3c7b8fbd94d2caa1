[package]
name = "mie_upload"
version = "0.1.0"
edition = "2021"
publish = false

[dependencies]
base64 = "*"
sha1 = "*"
tokio = { version = "*", default-features = false, features = ["rt-multi-thread", "macros", "time", "sync", "fs"] }
reqwest = { version = "*", default-features = false, features = ["json"] }
serde = { version = "*", features = ["derive"] }
serde_json = "*"
