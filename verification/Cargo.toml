[package]
name = "instrument_level"
version = "0.1.0"
edition = "2021"
publish = false

[dependencies]
syn = { version = "2", default-features = false, features = ["full", "parsing"] }
proc-macro2 = { version = "1", default-features = false }
