[package]
name = "lpc8xx_syscon"
version = "0.1.0"
edition = "2021"
publish = false

[dependencies]
lpc82x-pac = "*"
lpc845-pac = "*"
