[package]
name = "query_macros"
version = "0.1.0"
edition = "2021"
publish = false

[dependencies]
proc-macro2 = "=1.0.107"
quote = "=1.0.47"
syn = "=1.0.109"
sqlx-core = "=0.3.5"
