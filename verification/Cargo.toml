[package]
name = "twsapi"
version = "0.1.0"
edition = "2021"
publish = false

[dependencies]
from-ascii = "=0.0.1"
serde = { version = "=1.0.229", features = ["derive"] }
bytebuffer = "=2.3.0"
bigdecimal = "0.3"
