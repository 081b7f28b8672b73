[package]
name = "whatsong"
version = "0.1.0"
edition = "2021"
publish = false

[dependencies]
attohttpc = { version = "*", default-features = false, features = ["json"] }
dirs = "*"
serde = { version = "*", features = ["derive"] }
serde_json = "*"
