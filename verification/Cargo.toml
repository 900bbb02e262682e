[package]
name = "erika"
version = "0.1.0"
edition = "2021"
publish = false

[dependencies]
serde_json = "1"
crossbeam-channel = "0.5"
fontdb = "*"
libc = "0.2"
thiserror = "2"
