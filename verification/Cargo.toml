[package]
name = "rv32im-decoder"
version = "0.1.0"
edition = "2021"
publish = false
