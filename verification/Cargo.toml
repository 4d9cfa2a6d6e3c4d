[package]
name = "item_service"
version = "0.1.0"
edition = "2021"
publish = false

[dependencies]
actix-cors = "0.7"
actix-web = { version = "4", default-features = false, features = ["macros"] }
log = "0.4"
rust_decimal = "1"
serde = { version = "1", features = ["derive"] }
shuttle-actix-web = "0.57"
shuttle-runtime = "0.57"
shuttle-shared-db = { version = "0.57", features = ["postgres"] }
sqlx = { version = "0.8", default-features = false, features = ["runtime-tokio", "postgres", "uuid", "rust_decimal", "migrate", "derive"] }
tokio = "1"
uuid = { version = "1", features = ["v4", "serde"] }
