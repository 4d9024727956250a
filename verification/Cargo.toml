[package]
name = "vmm"
version = "0.1.0"
edition = "2021"
publish = false

[dependencies]
epoll = "4"
libc = "0.2"
vmm-sys-util = "*"
