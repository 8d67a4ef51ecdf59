[package]
name = "prompting_client"
version = "0.1.0"
edition = "2021"

[dependencies]
http = "1"
prost = "0.13"
tonic = { version = "0.12", features = ["gzip"] }
