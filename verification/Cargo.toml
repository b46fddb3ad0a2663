[package]
name = "dsmr_metrics"
version = "0.1.0"
edition = "2021"
publish = false

[dependencies]
dsmr5 = "*"
serial2 = "*"
ureq = "*"
log = "*"
env_logger = "*"
