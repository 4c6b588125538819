[package]
name = "member_admin"
version = "0.1.0"
edition = "2021"
publish = false

[dependencies]
chrono = { version = "=0.4.45", default-features = false, features = ["clock", "serde"] }
sea-orm = { version = "=2.0.4", default-features = false, features = ["macros", "runtime-tokio-rustls", "sqlx-postgres", "with-rust_decimal", "with-chrono"] }
actix-web = { version = "=4.15.0", default-features = false, features = ["macros"] }
actix-files = "=0.7.0"
tera = { version = "=2.4.0", default-features = false, features = ["glob_fs"] }
serde = { version = "=1.0.229", features = ["derive"] }
rust_decimal = { version = "=1.43.0", default-features = false, features = ["serde"] }
dotenvy = "=0.15.7"
listenfd = "=1.0.2"
tracing-subscriber = { version = "=0.3.23", default-features = false, features = ["fmt"] }
