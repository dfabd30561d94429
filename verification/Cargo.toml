[package]
name = "rust_db_lib"
version = "0.1.0"
edition = "2021"
publish = false

[dependencies]
chrono = "=0.4.45"
sqlx = { version = "=0.9.0", default-features = false, features = ["postgres", "chrono", "runtime-tokio"] }
