[package]
name = "librpm"
version = "0.1.0"
edition = "2021"
publish = false

[dependencies]
once_cell = "1"
parking_lot = "0.12"
streaming-iterator = "0.1"
