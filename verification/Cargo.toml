[package]
name = "iso8601_time"
version = "0.1.0"
edition = "2021"
publish = false

[dependencies]
iso8601 = "0.4"
serde = "1"
time = "0.2"
