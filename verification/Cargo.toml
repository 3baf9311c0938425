[package]
name = "illuminate"
version = "0.1.0"
edition = "2021"
publish = false

[dependencies]
ash = "0.37"
num = "0.4"
parking_lot = "0.12"
fxhash = "0.2"
