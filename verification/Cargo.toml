[package]
name = "hostfn_bridge"
version = "0.1.0"
edition = "2021"
publish = false

[dependencies]
parking_lot = "=0.12.5"
proc-macro2 = "=1.0.107"
quote = "=1.0.47"
rand = "=0.8.8"
syn = { version = "=1.0.109", features = ["full"] }
wasmedge-types = "=0.4.4"
