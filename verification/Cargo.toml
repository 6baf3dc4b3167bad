[package]
name = "rootfind"
version = "0.1.0"
edition = "2021"
publish = false

[dependencies]
serde = { version = "1", features = ["derive"] }
serde_json = "1"
graphul = "*"
multipart = "*"
regex = "1"
tokio = { version = "1", features = ["macros", "rt-multi-thread"] }
