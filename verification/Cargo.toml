[package]
name = "starlark_types"
version = "0.1.0"
edition = "2021"
publish = false

[dependencies]
starlark_syntax = "=0.14.2"
thiserror = "=2.0.21"
