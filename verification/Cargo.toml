[package]
name = "igvm_params"
version = "0.1.0"
edition = "2021"
publish = false

[dependencies]
igvm_defs = "*"
