[package]
name = "playcore"
version = "0.1.0"
edition = "2021"
publish = false

[dependencies]
minimp3 = "*"
id3 = "*"
crossterm = "*"
rodio = "*"
reqwest = { version = "*", default-features = false, features = ["blocking", "rustls-tls"] }
