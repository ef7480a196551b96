[package]
name = "overworld"
version = "0.1.0"
edition = "2021"

[dependencies]
interoptopus = "=0.14.27"
