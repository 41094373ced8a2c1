[package]
name = "variant_access"
version = "0.1.0"
edition = "2021"
publish = false

[dependencies]
tera = { version = "1", default-features = false }
syn = { version = "1", features = ["full"] }
quote = "1"
proc-macro2 = "1"
