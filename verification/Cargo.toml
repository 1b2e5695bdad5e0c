[package]
name = "y86"
version = "0.1.0"
edition = "2021"

[dependencies]
thiserror = "2"
