[package]
name = "upstream_select"
version = "0.1.0"
edition = "2021"
publish = false

[dependencies]
pingora = "*"
async-trait = "*"
env_logger = "*"
http = "*"
