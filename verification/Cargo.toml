[package]
name = "rtm"
version = "0.2.0"
edition = "2021"
publish = false

[dependencies]
dirs = "4.0"
