[package]
name = "furink_proto"
version = "0.1.0"
edition = "2021"
publish = false

[dependencies]
tokio = { version = "*", features = ["rt", "time"] }
tonic = "*"
prost = "*"
http = "*"
tracing = "*"
