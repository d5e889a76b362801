[package]
name = "entity_service"
version = "0.1.0"
edition = "2021"
publish = false

[dependencies]
actix-web = "4"
chrono = { version = "0.4", default-features = false, features = ["std", "serde"] }
diesel = { version = "2", features = ["postgres", "r2d2", "uuid", "chrono"] }
dotenvy = "0.15"
serde = { version = "1", features = ["derive"] }
uuid = { version = "1", features = ["serde"] }
