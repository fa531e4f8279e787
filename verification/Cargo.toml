[package]
name = "nomver"
version = "0.1.0"
edition = "2021"
publish = false

[dependencies]
clap = "*"
libflate = "*"
reqwest = { version = "*", default-features = false, features = ["blocking"] }
tar = "*"
