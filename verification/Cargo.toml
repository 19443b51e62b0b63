[package]
name = "uniforms"
version = "0.1.0"
edition = "2021"
publish = false

[dependencies]
Inflector = { version = "0.11.4", default-features = false }
darling = "0.10.2"
proc-macro2 = "1.0"
quote = "1.0"
syn = "1.0"
