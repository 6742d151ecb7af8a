[package]
name = "cache_gateway"
version = "0.1.0"
edition = "2021"
publish = false

[dependencies]
actix = "*"
actix-redis = "*"
actix-rt = "*"
actix-web = "*"
futures = "*"
redis-async = "*"
