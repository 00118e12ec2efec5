[package]
name = "doccrawl"
version = "0.1.0"
edition = "2021"
publish = false

[dependencies]
url = "*"
chrono = "*"
serde = { version = "*", features = ["derive"] }
serde_json = "*"
reqwest = { version = "*", default-features = false, features = ["json"] }
tokio = { version = "*", features = ["macros", "rt-multi-thread"] }
dotenv = "*"
