[package]
name = "dcc"
version = "0.1.0"
edition = "2021"
publish = false
