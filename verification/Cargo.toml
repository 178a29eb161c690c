[package]
name = "plugin_host"
version = "0.1.0"
edition = "2021"
publish = false

[dependencies]
wasmer = "=4.3.7"
wasmer-wasix = { version = "*", default-features = false, features = ["sys", "host-fs"] }
