[package]
name = "jtp"
version = "0.1.1"
edition = "2021"
publish = false

[dependencies]
crossbeam-channel = "0.5"
num_cpus = "1"
