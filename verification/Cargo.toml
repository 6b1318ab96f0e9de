[package]
name = "exlang"
version = "0.1.0"
edition = "2021"

[dependencies]
dyn-clone = "1.0"
