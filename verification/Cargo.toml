[package]
name = "gig_economy"
version = "0.1.0"
edition = "2021"
publish = false

[dependencies]
alloy-primitives = { version = "*", default-features = false }
alloy-sol-types = { version = "*", default-features = false }
stylus-sdk = "*"
