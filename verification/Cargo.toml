[package]
name = "alloy-throttle"
version = "0.1.0"
edition = "2021"
publish = false

[dependencies]
alloy-json-rpc = "*"
alloy-transport = "*"
governor = "*"
thiserror = "*"
tower = "*"
