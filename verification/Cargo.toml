[package]
name = "mint_events"
version = "0.1.0"
edition = "2021"
publish = false

[dependencies]
substreams = "0.5"
prost = "0.11"
