[package]
name = "ger"
version = "0.1.0"
edition = "2021"
publish = false

[dependencies]
actix-cors = "0.6"
actix-web = { version = "4", default-features = false, features = ["macros"] }
argon2 = "0.5"
comrak = { version = "*", default-features = false }
deadpool-postgres = "0.10"
dotenvy = "0.15"
futures-util = "0.3"
jsonwebtoken = "8"
postgres-types = { version = "0.2", features = ["derive", "with-time-0_3"] }
rand_core = { version = "0.6", features = ["std"] }
randoid = "*"
rust_decimal = { version = "1", features = ["db-tokio-postgres"] }
serde = { version = "1", features = ["derive"] }
serde_json = "1"
time = { version = "0.3", features = ["formatting", "parsing", "serde"] }
tokio-postgres = { version = "0.7", features = ["with-time-0_3"] }
