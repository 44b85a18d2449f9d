[package]
name = "s100"
version = "0.1.0"
edition = "2021"
publish = false

[dependencies]
libxml = "=0.2.16"
