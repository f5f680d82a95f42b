[package]
name = "fluent_onyx"
version = "0.1.0"
edition = "2021"
publish = false

[dependencies]
fluent = "=0.16.1"
intl-memoizer = "=0.5.3"
rand = "=0.8.8"
serde = { version = "1", features = ["derive"] }
serde_json = "1"
log = "0.4"
flexi_logger = "*"
backtrace = "0.3"
byond = "=0.4.0"
thiserror = "1"
anyhow = "1"
