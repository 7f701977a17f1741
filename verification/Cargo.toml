[package]
name = "todo"
version = "2.2.0"
edition = "2021"
publish = false

[dependencies]
sqlite = "0.26"
clap = "3.2"
lazy_static = "1.4"
