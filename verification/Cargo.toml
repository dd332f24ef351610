[package]
name = "name_to_handle_at_rs"
version = "0.1.0"
edition = "2021"
publish = false

[dependencies]
bitflags = "2"
