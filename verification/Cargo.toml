[package]
name = "jicloud_logic"
version = "0.1.0"
edition = "2021"
publish = false

[dependencies]
uuid = { version = "1", features = ["serde"] }
chrono = { version = "0.4", features = ["serde"] }
sqlx = { version = "0.8", default-features = false, features = ["postgres"] }
serde = { version = "1", features = ["derive"] }
serde_qs = "*"
warp = { version = "0.3", default-features = false }
