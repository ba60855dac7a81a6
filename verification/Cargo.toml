[package]
name = "tk-bufstream"
version = "0.1.0"
edition = "2021"
publish = false

[dependencies]
netbuf = "0.3"
futures = "0.1"
tokio-core = "0.1"
tokio-io = "0.1"
