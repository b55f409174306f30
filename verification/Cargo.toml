[package]
name = "mongod"
version = "0.3.0"
edition = "2021"
publish = false

[dependencies]
Inflector = "=0.11.4"
url = "=2.5.8"
bson = { version = "=2.15.0", features = ["chrono-0_4"] }
mongodb = "=2.8.2"
tokio = { version = "=1.54.1", features = ["rt", "sync"] }
futures = "=0.3.34"
serde = { version = "=1.0.229", features = ["derive"] }
syn = { version = "=2.0.119", features = ["full"] }
quote = "=1.0.47"
proc-macro2 = "=1.0.107"
chrono = "=0.4.45"
