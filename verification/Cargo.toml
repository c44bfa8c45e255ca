[package]
name = "cargo_travis"
version = "0.1.0"
edition = "2021"
publish = false

[dependencies]
badge = "*"
docopt = "1"
env_logger = "*"
failure = "0.1"
fs_extra = "1"
log = "0.4"
serde = { version = "1", features = ["derive"] }
serde_json = "1"
