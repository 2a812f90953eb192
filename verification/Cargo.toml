[package]
name = "contract_publisher"
version = "0.1.1"
edition = "2021"
publish = false

[dependencies]
anyhow = "1"
chrono = "0.4"
clap = { version = "3.2", features = ["derive"] }
fastrand = "1"
fern = "0.6"
log = "0.4"
reqwest = "0.11"
serde_json = "1"
tokio = { version = "1", features = ["macros", "rt-multi-thread"] }
uuid = { version = "1", features = ["v4"] }
