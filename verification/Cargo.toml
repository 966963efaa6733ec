[package]
name = "tfchain_exporter"
version = "0.1.0"
edition = "2021"
publish = false

[dependencies]
pretty_env_logger = "0.4"
prometheus = "0.13"
rouille = "3"
sp-core = "*"
