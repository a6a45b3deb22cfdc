[package]
name = "xquery"
version = "0.1.0"
edition = "2021"
publish = false

[dependencies]
rust_decimal = "1"
quick-xml = "0.22"
xmlparser = "0.13"
bigdecimal = "0.3"
