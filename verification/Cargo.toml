[package]
name = "tokio-named-pipes"
version = "0.1.0"
edition = "2021"
publish = false

[dependencies]
bytes = "0.4"
futures = "0.1"
mio = "0.6"
mio-named-pipes = "0.1"
tokio = "0.1"
