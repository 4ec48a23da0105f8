[package]
name = "pf_shell_core"
version = "0.1.0"
edition = "2021"
publish = false

[dependencies]
png = "0.17"
sha2 = "0.10"
