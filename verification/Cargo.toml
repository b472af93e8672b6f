[package]
name = "horizon_client"
version = "0.1.0"
edition = "2021"
publish = false

[dependencies]
bson = "2"
dotenv = "0.15"
rand = "0.8"
reqwest = { version = "0.12", features = ["json", "multipart"] }
serde = { version = "1", features = ["derive"] }
tokio = { version = "1", features = ["macros", "rt-multi-thread", "time"] }
