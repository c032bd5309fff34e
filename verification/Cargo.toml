[package]
name = "validit"
version = "0.2.5"
edition = "2021"
publish = false

[dependencies]
anyerror = "0.1"
