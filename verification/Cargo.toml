[package]
name = "runepl"
version = "0.1.0"
edition = "2021"
publish = false

[dependencies]
rune = "=0.14.2"
rustyline = "=18.0.1"
