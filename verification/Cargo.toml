[package]
name = "quran_api"
version = "0.1.0"
edition = "2021"
publish = false

[dependencies]
actix-web = { version = "4", default-features = false, features = ["macros"] }
diesel = { version = "2", features = ["postgres", "r2d2", "uuid"] }
serde = { version = "1", features = ["derive"] }
uuid = { version = "1", features = ["serde"] }
