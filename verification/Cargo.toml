[package]
name = "dir_ageism"
version = "0.1.0"
edition = "2021"
publish = false

[dependencies]
ignore = "0.4"
crossbeam-channel = "0.5"
colored = "2"
structopt = "0.3"
