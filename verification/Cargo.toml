[package]
name = "client_socket"
version = "0.1.0"
edition = "2021"
publish = false

[dependencies]
crossbeam-channel = "*"
serde_json = "*"
laminar = "*"
