[package]
name = "level6"
version = "0.1.0"
edition = "2021"
publish = false

[dependencies]
bit-struct = "*"
clap = { version = "4", features = ["derive"] }
colored = "2"
crc = "3"
nom = "7"
