[package]
name = "sukab_resto"
version = "0.1.0"
edition = "2021"
publish = false

[dependencies]
rand = "=0.8.8"
time = { version = "=0.3.55", features = ["formatting", "parsing"] }
serde = { version = "=1.0.229", features = ["derive"] }
log = "=0.4.34"
env_logger = "=0.11.11"
actix-web = "=4.15.0"
deadpool-postgres = "=0.14.2"
tokio-postgres = { version = "=0.7.18", features = ["with-time-0_3"] }
