[package]
name = "prompter"
version = "0.1.0"
edition = "2021"
publish = false

[dependencies]
libc = "0.2"
regex = "1"
serde_json = "1"
whoami = "1"
