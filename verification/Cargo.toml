[package]
name = "cgwiki"
version = "0.1.0"
edition = "2021"
publish = false

[dependencies]
aho-corasick = "1"
ironworks = { version = "0.4", features = ["excel"] }
time = "0.3"
