[package]
name = "nested_env_parser"
version = "0.1.0"
edition = "2021"
publish = false

[dependencies]
envmnt = "0.10"
