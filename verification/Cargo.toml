[package]
name = "include_compress_bytes"
version = "0.1.0"
edition = "2021"
publish = false

[dependencies]
brotli = "*"
sha2 = "*"
proc-macro2 = "*"
quote = "*"
syn = "*"

[dev-dependencies]
tempfile = "*"
