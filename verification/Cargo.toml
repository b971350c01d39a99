[package]
name = "sea_orm"
version = "0.1.0"
edition = "2021"
publish = false

[dependencies]
proc-macro2 = "=1.0.107"
quote = "=1.0.47"
syn = "=1.0.109"
thiserror = "=1.0.69"
sqlx = { version = "0.8", default-features = false }
