[package]
name = "rse-core"
version = "0.1.0"
edition = "2021"
publish = false

[dependencies]
chrono = "0.4"
rust_decimal = "1"
uuid = "1"
snafu = { version = "0.8", features = ["futures"] }
sqlx = { version = "0.8", default-features = false, features = ["runtime-tokio", "postgres", "uuid", "chrono", "rust_decimal", "migrate"] }
poise = "0.6"
tokio = { version = "1", features = ["macros", "rt-multi-thread", "signal"] }
tokio-util = "0.7"
tracing = "0.1"
tracing-subscriber = "0.3"
color-eyre = "0.6"
dotenvy = "0.15"
futures-util = "0.3"
