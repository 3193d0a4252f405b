[package]
name = "value_ref"
version = "0.1.0"
edition = "2021"
publish = false

[dependencies]
chrono = "=0.4.19"
chrono-tz = "=0.5.3"
uuid = "=1.29.0"
