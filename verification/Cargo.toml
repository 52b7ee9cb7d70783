[package]
name = "candle-srcnn"
version = "0.1.0"
edition = "2021"
publish = false

[dependencies]
candle-core = "0.8"
candle-nn = "0.8"
