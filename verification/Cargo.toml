[package]
name = "hello_midgar"
version = "0.1.0"
edition = "2021"
publish = false

[dependencies]
cgmath = "0.18"
