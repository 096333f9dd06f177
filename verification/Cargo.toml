[package]
name = "vlfd_ffi"
version = "0.1.0"
edition = "2021"
publish = false

[dependencies]
vlfd-rs = "=1.0.1"
