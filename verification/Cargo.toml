[package]
name = "toml_schema"
version = "0.1.0"
edition = "2021"
publish = false

[dependencies]
convert_case = "*"
proc-macro2 = "1"
syn = { version = "2", features = ["full"] }
quote = "1"
