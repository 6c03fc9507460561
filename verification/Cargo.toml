[package]
name = "cursednoise"
version = "0.1.0"
edition = "2021"
publish = false

[dependencies]
simdeez = "2.0.0-dev1"
