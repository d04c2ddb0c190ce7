[package]
name = "gwrs"
version = "0.1.0"
edition = "2021"
publish = false

[dependencies]
astronomy = "=0.1.5"
ndarray = "=0.16.1"
rust_decimal = "=1.43.0"
thiserror = "=2.0.21"
