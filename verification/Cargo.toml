[package]
name = "smt100"
version = "0.1.0"
edition = "2021"
publish = false

[dependencies]
async-trait = "*"
log = "*"
tokio = { version = "*", features = ["time", "rt"] }
tokio-modbus = "*"
tokio-serial = "*"
