[package]
name = "takis"
version = "0.1.0"
edition = "2021"
publish = false

[dependencies]
clap = { version = "4", features = ["derive"] }
id3 = "1"
regex = "1"
tabled = "*"
