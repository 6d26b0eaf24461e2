[package]
name = "freenect-async"
version = "0.1.0"
edition = "2021"
publish = false

[dependencies]
lending-stream = "=1.0.1"
thiserror = "1"
