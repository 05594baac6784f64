[package]
name = "file_scanner"
version = "0.1.0"
edition = "2021"
publish = false

[dependencies]
actix-web = { version = "4", default-features = false, features = ["macros"] }
chrono = { version = "0.4", features = ["serde"] }
data-encoding = "2"
futures-util = "0.3"
rand = "0.8"
ring = "0.17"
serde = { version = "1", features = ["derive"] }
serde_json = "1"
sqlx = { version = "0.7", default-features = false, features = ["postgres", "runtime-tokio", "uuid", "chrono"] }
tokio = { version = "1", features = ["rt-multi-thread", "macros", "time", "fs", "io-util", "process"] }
tracing = "0.1"
uuid = { version = "1", features = ["v4", "serde"] }
