[package]
name = "discordia"
version = "0.1.0"
edition = "2021"
publish = false

[dependencies]
rand = "=0.7.3"
twilight-embed-builder = "=0.6.0"
twilight-model = "0.6"
serenity = { version = "=0.9.4", features = ["voice"] }
tokio = { version = "=0.2.25", features = ["macros", "rt-threaded", "time"] }
tracing = "=0.1.44"
tracing-subscriber = "=0.2.25"
dotenv = "=0.15.0"
prettytable-rs = "=0.10.0"
redis = "=0.17.0"
