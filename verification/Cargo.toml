[package]
name = "trouble_maker"
version = "0.1.0"
edition = "2021"
publish = false

[dependencies]
rand = "0.8"
regex = "1"
serde = { version = "1", features = ["derive"] }
http = "0.2"
hyper = { version = "0.14", features = ["full"] }
tokio = { version = "1", features = ["full"] }
config = { version = "0.13", default-features = false, features = ["toml"] }
log = "0.4"
pretty_env_logger = "0.5"
