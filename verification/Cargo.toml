[package]
name = "stylus_social"
version = "0.1.0"
edition = "2021"
publish = false

[dependencies]
alloy-primitives = "=0.7.7"
alloy-sol-types = "=0.7.7"
