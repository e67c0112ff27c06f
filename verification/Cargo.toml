[package]
name = "impersonate"
version = "0.1.0"
edition = "2021"
publish = false

[dependencies]
boring = "=4.22.0"
brotli = "*"
flate2 = "*"
hickory-resolver = "=0.24.4"
http = "=1.5.0"
typed-builder = "=0.20.1"
