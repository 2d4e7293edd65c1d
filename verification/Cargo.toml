[package]
name = "service_cli"
version = "0.1.0"
edition = "2021"
publish = false

[dependencies]
service-manager = "=0.11.0"
