[package]
name = "tamaureus"
version = "0.1.0"
edition = "2021"
publish = false

[dependencies]
base64 = "0.22"
chrono = "0.4"
lofty = "*"
rodio = "0.21"
serde = { version = "1", features = ["derive"] }
sqlx = { version = "0.8", features = ["sqlite", "runtime-tokio"] }
symphonia = { version = "0.5", features = ["all"] }
tokio = { version = "1", features = ["fs"] }
