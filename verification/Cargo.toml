[package]
name = "tinify"
version = "0.1.0"
edition = "2021"
publish = false

[dependencies]
reqwest = { version = "0.12", features = ["blocking"] }
tokio = { version = "1", features = ["rt", "rt-multi-thread", "macros"] }
url = "2"
serde = { version = "1", features = ["derive"] }
serde_json = "1"
dotenv = "0.15"
lazy_static = "1"

[dev-dependencies]
image = { version = "0.25", default-features = false, features = ["png"] }
num-complex = "0.4"
