[package]
name = "spi"
version = "0.1.0"
edition = "2021"
publish = false

[dependencies]
pgx = { version = "0.4", features = ["pg13"] }
