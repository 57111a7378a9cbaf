[package]
name = "db_schema_ver"
version = "0.1.0"
edition = "2021"
publish = false

[dependencies]
chrono = "0.4"
postgres = "0.19"
rust-ini = "*"
clap = "4"
