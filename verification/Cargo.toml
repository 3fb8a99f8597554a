[package]
name = "xrspace"
version = "0.1.0"
edition = "2021"
publish = false

[dependencies]
euclid = "*"
rust-webvr-api = "*"
