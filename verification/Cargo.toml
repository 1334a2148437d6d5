[package]
name = "matrixd"
version = "0.1.0"
edition = "2021"
publish = false

[dependencies]
crossbeam-channel = "*"
ctrlc = "*"
rand = "*"
tokio = { version = "*", features = ["rt", "rt-multi-thread", "time", "macros"] }
