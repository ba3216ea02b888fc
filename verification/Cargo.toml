[package]
name = "socket2"
version = "0.1.0"
edition = "2021"
publish = false

[dependencies]
winapi = "0.2"
kernel32-sys = "0.2"
ws2_32-sys = "0.2"
