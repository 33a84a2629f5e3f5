[package]
name = "event_relay"
version = "0.1.0"
edition = "2021"
publish = false

[dependencies]
serde_json = "1"
actix = "0.13"
actix-web = "4"
actix-web-actors = "4"
reqwest = "0.11"
env_logger = "0.10"
log = "0.4"
