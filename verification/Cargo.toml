[package]
name = "ibd_parser"
version = "0.1.0"
edition = "2021"
publish = false

[dependencies]
bytes = "1"
clap = { version = "4", features = ["derive"] }
console = "0.15"
flate2 = "1"
hex = "0.4"
serde_json = "1"
