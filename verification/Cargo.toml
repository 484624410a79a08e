[package]
name = "uring_playground"
version = "0.1.0"
edition = "2021"
publish = false

[dependencies]
io-uring = "*"
libc = "*"
socket2 = "*"
async-task = "*"
noop-waker = "*"
futures-core = "*"
