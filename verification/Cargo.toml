[package]
name = "fix_learning"
version = "0.1.0"
edition = "2021"
publish = false

[dependencies]
itoa = "1"
thiserror = "1"
time = "0.3"
