[package]
name = "snek"
version = "0.1.0"
edition = "2021"
publish = false

[dependencies]
console_engine = "*"
euclid = "*"
fastrand = "*"
