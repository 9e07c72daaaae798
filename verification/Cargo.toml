[package]
name = "dialer"
version = "0.1.0"
edition = "2021"
publish = false

[dependencies]
embedded-graphics = "=0.6.2"
embedded-graphics-simulator = "=0.2.1"
