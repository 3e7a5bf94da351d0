[package]
name = "newsletter"
version = "0.1.0"
edition = "2021"
publish = false

[dependencies]
secrecy = { version = "0.8", features = ["serde"] }
unicode-segmentation = "1"
rand = "0.8"
anyhow = "1"
sqlx = { version = "0.8", default-features = false, features = ["runtime-tokio", "postgres", "uuid"] }
tokio = { version = "1", features = ["macros", "rt-multi-thread", "time"] }
actix-web = { version = "4", default-features = false, features = ["macros", "cookies"] }
actix-web-flash-messages = { version = "0.5", features = ["cookies"] }
tracing = "0.1"
serde = { version = "1", features = ["derive"] }
thiserror = "1"
uuid = { version = "1", features = ["v4"] }
