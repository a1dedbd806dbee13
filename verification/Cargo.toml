[package]
name = "rsi"
version = "0.1.0"
edition = "2021"
publish = false

[dependencies]
polars = { version = "0.35", default-features = false, features = ["csv", "lazy", "rolling_window", "fmt"] }
