[package]
name = "dut_definition"
version = "0.1.0"
edition = "2021"
publish = false

[dependencies]
probe-rs = "*"
toml = "*"
fs-err = "*"

[dev-dependencies]
tempfile = "*"
