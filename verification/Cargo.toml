[package]
name = "fluent_bundle"
version = "0.1.0"
edition = "2021"
publish = false

[dependencies]
fluent-syntax = "=0.12.0"
