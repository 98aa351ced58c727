[package]
name = "tty-image"
version = "0.1.0"
edition = "2021"
publish = false

[dependencies]
ansi_term = "0.12"
image = "0.24"
term_size = "0.3"
