[package]
name = "resp_args"
version = "0.1.0"
edition = "2021"
publish = false

[dependencies]
serde = "1"
syn = { version = "2", features = ["full", "visit-mut"] }
quote = "1"
proc-macro2 = "1"
