[package]
name = "axml_parser"
version = "0.1.0"
edition = "2021"
publish = false

[dependencies]
byteorder = "1"
clap = { version = "4", features = ["derive"] }
quick-xml = "*"
zip = { version = "*", default-features = false, features = ["deflate"] }
