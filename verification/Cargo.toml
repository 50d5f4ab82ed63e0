[package]
name = "embedded-can-mock"
version = "0.1.0"
edition = "2021"
publish = false

[dependencies]
embedded-can = "0.4"
embedded-can-interface = "*"
