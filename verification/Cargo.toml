[package]
name = "pwvault"
version = "0.1.0"
edition = "2021"
publish = false

[dependencies]
magic-crypt = "3"
rand = "0.8"
serde = { version = "1", features = ["derive"] }
sqlx = { version = "0.8", default-features = false, features = ["sqlite", "runtime-tokio"] }
sysinfo = "*"
tokio = { version = "1", features = ["rt-multi-thread", "macros"] }
