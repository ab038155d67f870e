[package]
name = "uptime"
version = "0.1.0"
edition = "2021"
publish = false

[dependencies]
getopts = "=0.2.21"
libc = "=0.2.85"
time = "=0.1.42"
uucore = { version = "=0.0.7", features = ["utmpx"] }
