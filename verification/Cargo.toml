[package]
name = "http_service"
version = "0.1.0"
edition = "2021"
publish = false

[dependencies]
async-std = "1"
http = "1"
