[package]
name = "sum_range"
version = "0.1.0"
edition = "2021"

[dependencies]
num = { version = "0.4", default-features = false }
num_convert = "*"
