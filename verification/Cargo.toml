[package]
name = "table_ddl"
version = "0.1.0"
edition = "2021"
publish = false

[dependencies]
anyhow = "1"
educe = "*"
serde = { version = "1", features = ["derive"] }
winnow = "*"
wp-error = "*"
