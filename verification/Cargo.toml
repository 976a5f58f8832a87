[package]
name = "stagehand"
version = "0.1.0"
edition = "2021"
publish = false

[dependencies]
artnet_protocol = "=0.4.4"
dashmap = "=6.2.1"
lazy_static = "=1.5.1"
