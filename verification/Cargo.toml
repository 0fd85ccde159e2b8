[package]
name = "memcache_protocol"
version = "0.1.0"
edition = "2021"
publish = false

[dependencies]
tokio-core = "0.1"
tokio-proto = "0.1"
