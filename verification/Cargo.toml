[package]
name = "sparkle_cache"
version = "0.1.0"
edition = "2021"
publish = false

[dependencies]
time = "0.3"
twilight-model = "0.11"
twilight-gateway = "0.11"
twilight-http = "0.11"
futures = "0.3"
anyhow = "1"
