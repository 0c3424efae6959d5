[package]
name = "bounded_rand"
version = "0.1.0"
edition = "2021"

[dependencies]
rand = "*"
