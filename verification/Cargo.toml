[package]
name = "lookup_scan"
version = "0.1.0"
edition = "2021"
publish = false

[dependencies]
glob = "=0.3.4"

[dev-dependencies]
tempfile = "3"
