[package]
name = "collectd_plugin"
version = "0.1.0"
edition = "2021"
publish = false

[dependencies]
serde = "*"
chrono = "*"
