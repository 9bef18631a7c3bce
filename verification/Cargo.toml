[package]
name = "vipping"
version = "0.1.0"
edition = "2021"
publish = false

[dependencies]
pnet = "0.35"
rand = "0.8"
actix-web = "4"
env_logger = "0.11"
log = "0.4"
moka = { version = "0.12", features = ["future"] }
once_cell = "1"
serde = { version = "1", features = ["derive"] }
