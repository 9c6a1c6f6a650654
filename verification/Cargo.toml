[package]
name = "groupbuy_core"
version = "0.1.0"
edition = "2021"
publish = false

[dependencies]
chrono = "0.4"
actix-web = { version = "4", default-features = false, features = ["macros"] }
actix-ws = "0.3"
actix-cors = "0.7"
tokio = { version = "1", features = ["sync"] }
futures-util = "0.3"
serde = { version = "1", features = ["derive"] }
serde_json = "1"
rust_decimal = "1"
dotenvy = "0.15"
