[package]
name = "tetterm"
version = "0.1.0"
edition = "2021"
publish = false

[dependencies]
bufstream = "*"
log = "*"
simple_logger = "*"
tetrix = "*"
