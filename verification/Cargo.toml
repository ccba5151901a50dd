[package]
name = "arith_trace"
version = "0.1.0"
edition = "2021"
publish = false

[dependencies]
num = "=0.4.3"
plonky2 = { version = "=0.2.2", default-features = false, features = ["std"] }
