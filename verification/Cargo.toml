[package]
name = "foxmarks"
version = "0.1.0"
edition = "2021"
publish = false

[dependencies]
clap = "4"
configparser = { version = "3", features = ["indexmap"] }
dirs = "5"
rusqlite = { version = "0.31", features = ["bundled"] }
tempfile = "3"
