[package]
name = "log-derive"
version = "0.4.1"
edition = "2021"
publish = false

[dependencies]
darling = "0.10"
proc-macro2 = "1"
quote = "1"
syn = { version = "1", features = ["full"] }

[dev-dependencies]
log = "0.4"
