[package]
name = "payeng"
version = "0.1.0"
edition = "2021"
publish = false

[dependencies]
crossbeam = "*"
csv = "*"
rust_decimal = "*"
serde = { version = "*", features = ["derive"] }
tracing = "*"
tracing-bunyan-formatter = "*"
tracing-subscriber = { version = "*", features = ["env-filter"] }
