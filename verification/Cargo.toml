[package]
name = "afxdp"
version = "0.1.0"
edition = "2021"

[dependencies]
errno = "0.2"
libc = "0.2"
