[package]
name = "batman"
version = "0.1.0"
edition = "2021"
publish = false

[dependencies]
anyhow = "1"
dbus = "0.9"
log = "0.4"
pretty_env_logger = "0.5"
serde = { version = "1", features = ["derive"] }
toml = "0.8"
