[package]
name = "tds_landing"
version = "0.1.0"
edition = "2021"
publish = false

[dependencies]
dioxus = { version = "0.6", features = ["web"] }
web-sys = "0.3"
