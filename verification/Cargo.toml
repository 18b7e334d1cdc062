[package]
name = "arrow2_convert"
version = "0.1.0"
edition = "2021"
publish = false

[dependencies]
arrow2 = { version = "*", default-features = false }
proc-macro2 = "1"
syn = "1"
