[package]
name = "type_signature"
version = "0.1.2"
edition = "2021"
publish = false

[dependencies]
syn = "2"
