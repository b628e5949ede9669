[package]
name = "my_rpc"
version = "0.1.0"
edition = "2021"
publish = false

[dependencies]
flume = "*"
futures-lite = "*"
futures-timer = "*"
async-io = "*"
smol = "*"
